use cargo_wix::error::Error;
use cargo_wix::manifest::Manifest;
use cargo_wix::pipeline::installer_filename;
use cargo_wix::pipeline::msi_path;
use cargo_wix::pipeline::Pipeline;
use cargo_wix::pipeline::Stage;
use cargo_wix::pipeline::Wix;
use cargo_wix::platform::Platform;

fn demo_manifest() -> Manifest {
    Manifest {
        version: "2.1.0".to_string(),
        name: "demo".to_string(),
        description: "A demo package".to_string(),
        author: "First Author".to_string(),
        bin_name: "demo".to_string(),
    }
}

#[test]
fn installer_filename_keeps_version_periods() {
    assert_eq!(installer_filename("demo", "2.1.0", Platform::X64), "demo-2.1.0-x86_64.msi");
}

#[test]
fn installer_filename_uses_platform_arch() {
    assert_eq!(installer_filename("demo", "2.1.0", Platform::X86), "demo-2.1.0-i686.msi");
}

#[test]
fn msi_path_lies_under_build_output() {
    assert_eq!(msi_path("demo", "2.1.0", Platform::X64), "target/wix/demo-2.1.0-x86_64.msi");
}

#[test]
fn build_invocation_arguments() {
    let inv = Wix::new().build_invocation();
    assert_eq!(inv.program, "cargo");
    assert_eq!(inv.args, vec!["build", "--release"]);
    assert!(inv.capture_output);
}

#[test]
fn compile_invocation_arguments() {
    let inv = Wix::new().compile_invocation(&demo_manifest(), Platform::X64);
    assert_eq!(inv.program, "candle");
    assert_eq!(
        inv.args,
        vec![
            "-dVersion=2.1.0",
            "-dPlatform=x64",
            "-dProductName=demo",
            "-dBinaryName=demo",
            "-dDescription=A demo package",
            "-dAuthor=First Author",
            "-o",
            "target/wix/build/main.wixobj",
            "wix/main.wxs",
        ]
    );
}

#[test]
fn link_invocation_arguments() {
    let inv = Wix::new().link_invocation(&demo_manifest(), Platform::X64);
    assert_eq!(inv.program, "light");
    assert_eq!(
        inv.args,
        vec![
            "-ext",
            "WixUIExtension",
            "-cultures:en-us",
            "target/wix/build/main.wixobj",
            "-out",
            "target/wix/demo-2.1.0-x86_64.msi",
        ]
    );
}

#[test]
fn sign_invocation_arguments() {
    let inv = Wix::new().sign_invocation(&demo_manifest(), Platform::X64);
    assert_eq!(inv.program, "signtool");
    assert_eq!(inv.args, vec!["sign", "/a", "target/wix/demo-2.1.0-x86_64.msi"]);
}

#[test]
fn capture_output_builder_reaches_invocations() {
    let inv = Wix::new().capture_output(false).build_invocation();
    assert!(!inv.capture_output);
}

#[test]
fn plan_without_sign_has_three_stages() {
    let plan = Wix::new().plan(&demo_manifest(), Platform::X64);
    let stages: Vec<Stage> = plan.iter().map(|p| p.0).collect();
    assert_eq!(stages, vec![Stage::Build, Stage::Compile, Stage::Link]);
}

#[test]
fn plan_with_sign_ends_with_sign_stage() {
    let plan = Wix::new().sign(true).plan(&demo_manifest(), Platform::X64);
    let stages: Vec<Stage> = plan.iter().map(|p| p.0).collect();
    assert_eq!(stages, vec![Stage::Build, Stage::Compile, Stage::Link, Stage::Sign]);
}

#[test]
fn build_failure_stops_pipeline_at_once() {
    let wix = Wix::new();
    let manifest = demo_manifest();
    let mut p = Pipeline::new(&wix, &manifest, Platform::X64);
    let (stage, inv) = p.current();
    assert_eq!(stage, Stage::Build);
    assert_eq!(inv.program, "cargo");
    p.record(Some(false));
    assert!(p.is_done());
    assert_eq!(p.executed(), 1);
    match p.into_result() {
        Err(e) => {
            assert!(matches!(e, Error::Build(_)));
            assert_eq!(e.code(), 1);
        },
        Ok(()) => panic!("a failing build must fail the run"),
    }
}

#[test]
fn compile_failure_maps_to_compile_error() {
    let wix = Wix::new();
    let manifest = demo_manifest();
    let mut p = Pipeline::new(&wix, &manifest, Platform::X64);
    p.record(Some(true));
    p.record(Some(false));
    assert!(p.is_done());
    assert_eq!(p.executed(), 2);
    assert!(matches!(p.into_result(), Err(Error::Compile(_))));
}

#[test]
fn unsigned_run_never_invokes_signing_tool() {
    let wix = Wix::new();
    let manifest = demo_manifest();
    let mut p = Pipeline::new(&wix, &manifest, Platform::X64);
    let mut programs: Vec<String> = Vec::new();
    while !p.is_done() {
        let (_, inv) = p.current();
        programs.push(inv.program.clone());
        p.record(Some(true));
    }
    assert!(p.into_result().is_ok());
    assert_eq!(programs, vec!["cargo", "candle", "light"]);
}

#[test]
fn signed_run_ends_with_signing_tool() {
    let wix = Wix::new().sign(true);
    let manifest = demo_manifest();
    let mut p = Pipeline::new(&wix, &manifest, Platform::X64);
    let mut programs: Vec<String> = Vec::new();
    while !p.is_done() {
        let (_, inv) = p.current();
        programs.push(inv.program.clone());
        p.record(Some(true));
    }
    assert!(p.into_result().is_ok());
    assert_eq!(programs, vec!["cargo", "candle", "light", "signtool"]);
}

#[test]
fn sign_failure_maps_to_sign_error() {
    let wix = Wix::new().sign(true);
    let manifest = demo_manifest();
    let mut p = Pipeline::new(&wix, &manifest, Platform::X64);
    p.record(Some(true));
    p.record(Some(true));
    p.record(Some(true));
    p.record(Some(false));
    assert!(p.is_done());
    assert!(matches!(p.into_result(), Err(Error::Sign(_))));
}

#[test]
fn spawn_failure_is_passed_over() {
    let wix = Wix::new();
    let manifest = demo_manifest();
    let mut p = Pipeline::new(&wix, &manifest, Platform::X64);
    p.record(None);
    p.record(None);
    p.record(None);
    assert!(p.is_done());
    assert!(p.into_result().is_ok());
}
