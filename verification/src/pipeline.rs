//! The pipeline orchestrator.
//!
//! A run goes through up to four stages in a fixed order — build, compile,
//! link, and (only when enabled) sign — each invoking one external process.
//! This module decides everything about a run: which stages there are, the
//! exact program and argument list of each, and how a process outcome maps to
//! the typed result. Spawning the processes is left to the caller, which
//! drives a [`Pipeline`] one stage at a time.

use vstd::prelude::*;

use crate::error::Error;
use crate::error::SpecError;
use crate::manifest::Manifest;
use crate::manifest::ManifestV;
use crate::platform::Platform;

verus! {

/// The four stages of a run, in their fixed order.
#[derive(Debug, Clone, Copy, PartialEq, Eq, Structural)]
pub enum Stage {
    Build,
    Compile,
    Link,
    Sign,
}

/// The path of the installer-definition source.
pub open spec fn spec_wxs_path() -> Seq<char> {
    "wix/main.wxs"@
}

/// The path of the compiled-object intermediate.
pub open spec fn spec_wixobj_path() -> Seq<char> {
    "target/wix/build/main.wixobj"@
}

/// Gets the path of the installer-definition source.
pub fn wxs_path() -> (r: &'static str)
    ensures
        r@ == spec_wxs_path(),
{
    "wix/main.wxs"
}

/// Gets the path of the compiled-object intermediate.
pub fn wixobj_path() -> (r: &'static str)
    ensures
        r@ == spec_wixobj_path(),
{
    "target/wix/build/main.wixobj"
}

/// The file name of the final installer: `{name}-{version}-{arch}.msi`.
pub open spec fn spec_installer_filename(
    name: Seq<char>,
    version: Seq<char>,
    platform: Platform,
) -> Seq<char> {
    name + "-"@ + version + "-"@ + platform.spec_arch() + ".msi"@
}

/// The path of the final installer, under the build-output directory.
pub open spec fn spec_msi_path(name: Seq<char>, version: Seq<char>, platform: Platform) -> Seq<
    char,
> {
    "target/wix/"@ + spec_installer_filename(name, version, platform)
}

/// Composes the file name of the final installer. The extension is appended
/// literally rather than by an extension-setting operation, which would
/// truncate a version that itself contains periods.
pub fn installer_filename(name: &str, version: &str, platform: Platform) -> (r: String)
    ensures
        r@ == spec_installer_filename(name@, version@, platform),
{
    let r = String::from_str(name).concat("-").concat(version).concat("-").concat(
        platform.arch(),
    ).concat(".msi");
    proof {
        assert(r@ =~= spec_installer_filename(name@, version@, platform));
    }
    r
}

/// Composes the path of the final installer.
pub fn msi_path(name: &str, version: &str, platform: Platform) -> (r: String)
    ensures
        r@ == spec_msi_path(name@, version@, platform),
{
    let file = installer_filename(name, version, platform);
    let r = String::from_str("target/wix/").concat(file.as_str());
    r
}

/// The mathematical value of an [`Invocation`].
pub struct InvocationV {
    pub program: Seq<char>,
    pub args: Seq<Seq<char>>,
    pub capture_output: bool,
}

/// One external process of the pipeline: the program to run, its argument
/// list, and whether its output streams are suppressed.
#[derive(Debug, Clone, PartialEq, Eq)]
pub struct Invocation {
    /// The program to spawn.
    pub program: String,
    /// The arguments handed to the program, in order.
    pub args: Vec<String>,
    /// Whether the process's standard output and error are redirected to a
    /// null sink rather than inherited.
    pub capture_output: bool,
}

impl View for Invocation {
    type V = InvocationV;

    open spec fn view(&self) -> InvocationV {
        InvocationV {
            program: self.program@,
            args: self.args.deep_view(),
            capture_output: self.capture_output,
        }
    }
}

/// The build stage's process: a release-mode build of the current project.
pub open spec fn spec_build_invocation(capture: bool) -> InvocationV {
    InvocationV {
        program: "cargo"@,
        args: seq!["build"@, "--release"@],
        capture_output: capture,
    }
}

/// The compile stage's process: the installer-definition compiler, with the
/// manifest's values as named variables.
pub open spec fn spec_compile_invocation(m: ManifestV, platform: Platform, capture: bool) -> InvocationV {
    InvocationV {
        program: "candle"@,
        args: seq![
            "-dVersion="@ + m.version,
            "-dPlatform="@ + platform.spec_short_name(),
            "-dProductName="@ + m.name,
            "-dBinaryName="@ + m.bin_name,
            "-dDescription="@ + m.description,
            "-dAuthor="@ + m.author,
            "-o"@,
            spec_wixobj_path(),
            spec_wxs_path(),
        ],
        capture_output: capture,
    }
}

/// The link stage's process: the installer linker, with a fixed UI extension
/// and a fixed locale.
pub open spec fn spec_link_invocation(m: ManifestV, platform: Platform, capture: bool) -> InvocationV {
    InvocationV {
        program: "light"@,
        args: seq![
            "-ext"@,
            "WixUIExtension"@,
            "-cultures:en-us"@,
            spec_wixobj_path(),
            "-out"@,
            spec_msi_path(m.name, m.version, platform),
        ],
        capture_output: capture,
    }
}

/// The sign stage's process: the signing tool, selecting the certificate
/// automatically.
pub open spec fn spec_sign_invocation(m: ManifestV, platform: Platform, capture: bool) -> InvocationV {
    InvocationV {
        program: "signtool"@,
        args: seq!["sign"@, "/a"@, spec_msi_path(m.name, m.version, platform)],
        capture_output: capture,
    }
}

/// The stages a run executes, in order: build, compile and link, then sign
/// only when signing is enabled.
pub open spec fn spec_stage_list(sign: bool) -> Seq<Stage> {
    if sign {
        seq![Stage::Build, Stage::Compile, Stage::Link, Stage::Sign]
    } else {
        seq![Stage::Build, Stage::Compile, Stage::Link]
    }
}

/// The error each stage reports when its process fails.
pub open spec fn spec_stage_error(stage: Stage) -> SpecError {
    match stage {
        Stage::Build => SpecError::Build("Failed to build the release executable"@),
        Stage::Compile => SpecError::Compile("Failed to compile the installer"@),
        Stage::Link => SpecError::Link("Failed to link the installer"@),
        Stage::Sign => SpecError::Sign("Failed to sign the installer"@),
    }
}

/// Builds the error a failing stage reports.
pub fn stage_error(stage: Stage) -> (r: Error)
    ensures
        r@ == spec_stage_error(stage),
{
    match stage {
        Stage::Build => Error::Build(String::from_str("Failed to build the release executable")),
        Stage::Compile => Error::Compile(String::from_str("Failed to compile the installer")),
        Stage::Link => Error::Link(String::from_str("Failed to link the installer")),
        Stage::Sign => Error::Sign(String::from_str("Failed to sign the installer")),
    }
}

/// Prefixes a value with a fixed flag text.
fn flag_arg(prefix: &str, value: &str) -> (r: String)
    ensures
        r@ == prefix@ + value@,
{
    String::from_str(prefix).concat(value)
}

/// The construction-time options of a run: whether the installer is signed
/// after linking, and whether the external processes' output is suppressed.
#[derive(Debug, Clone, Copy)]
pub struct Wix {
    sign: bool,
    capture_output: bool,
}

impl Wix {
    /// Whether the sign stage runs.
    pub closed spec fn spec_sign(self) -> bool {
        self.sign
    }

    /// Whether the external processes' output streams are suppressed.
    pub closed spec fn spec_capture_output(self) -> bool {
        self.capture_output
    }

    /// Creates the default options: no signing, output suppressed.
    pub fn new() -> (r: Self)
        ensures
            !r.spec_sign(),
            r.spec_capture_output(),
    {
        Wix { sign: false, capture_output: true }
    }

    /// Sets whether the external processes' output is suppressed.
    pub fn capture_output(self, c: bool) -> (r: Self)
        ensures
            r.spec_capture_output() == c,
            r.spec_sign() == self.spec_sign(),
    {
        Wix { sign: self.sign, capture_output: c }
    }

    /// Sets whether the installer is signed after linking.
    pub fn sign(self, s: bool) -> (r: Self)
        ensures
            r.spec_sign() == s,
            r.spec_capture_output() == self.spec_capture_output(),
    {
        Wix { sign: s, capture_output: self.capture_output }
    }

    /// The build stage's invocation.
    pub fn build_invocation(&self) -> (r: Invocation)
        ensures
            r@ == spec_build_invocation(self.spec_capture_output()),
    {
        let mut args: Vec<String> = Vec::new();
        args.push(String::from_str("build"));
        args.push(String::from_str("--release"));
        let r = Invocation {
            program: String::from_str("cargo"),
            args,
            capture_output: self.capture_output,
        };
        proof {
            assert(r@.args =~~= spec_build_invocation(self.spec_capture_output()).args);
        }
        r
    }

    /// The compile stage's invocation.
    pub fn compile_invocation(&self, m: &Manifest, platform: Platform) -> (r: Invocation)
        ensures
            r@ == spec_compile_invocation(m@, platform, self.spec_capture_output()),
    {
        let mut args: Vec<String> = Vec::new();
        args.push(flag_arg("-dVersion=", m.version.as_str()));
        args.push(flag_arg("-dPlatform=", platform.short_name()));
        args.push(flag_arg("-dProductName=", m.name.as_str()));
        args.push(flag_arg("-dBinaryName=", m.bin_name.as_str()));
        args.push(flag_arg("-dDescription=", m.description.as_str()));
        args.push(flag_arg("-dAuthor=", m.author.as_str()));
        args.push(String::from_str("-o"));
        args.push(String::from_str(wixobj_path()));
        args.push(String::from_str(wxs_path()));
        let r = Invocation {
            program: String::from_str("candle"),
            args,
            capture_output: self.capture_output,
        };
        proof {
            assert(r@.args =~~= spec_compile_invocation(
                m@,
                platform,
                self.spec_capture_output(),
            ).args);
        }
        r
    }

    /// The link stage's invocation.
    pub fn link_invocation(&self, m: &Manifest, platform: Platform) -> (r: Invocation)
        ensures
            r@ == spec_link_invocation(m@, platform, self.spec_capture_output()),
    {
        let mut args: Vec<String> = Vec::new();
        args.push(String::from_str("-ext"));
        args.push(String::from_str("WixUIExtension"));
        args.push(String::from_str("-cultures:en-us"));
        args.push(String::from_str(wixobj_path()));
        args.push(String::from_str("-out"));
        args.push(msi_path(m.name.as_str(), m.version.as_str(), platform));
        let r = Invocation {
            program: String::from_str("light"),
            args,
            capture_output: self.capture_output,
        };
        proof {
            assert(r@.args =~~= spec_link_invocation(
                m@,
                platform,
                self.spec_capture_output(),
            ).args);
        }
        r
    }

    /// The sign stage's invocation.
    pub fn sign_invocation(&self, m: &Manifest, platform: Platform) -> (r: Invocation)
        ensures
            r@ == spec_sign_invocation(m@, platform, self.spec_capture_output()),
    {
        let mut args: Vec<String> = Vec::new();
        args.push(String::from_str("sign"));
        args.push(String::from_str("/a"));
        args.push(msi_path(m.name.as_str(), m.version.as_str(), platform));
        let r = Invocation {
            program: String::from_str("signtool"),
            args,
            capture_output: self.capture_output,
        };
        proof {
            assert(r@.args =~~= spec_sign_invocation(
                m@,
                platform,
                self.spec_capture_output(),
            ).args);
        }
        r
    }

    /// Lays out a whole run: each stage to execute, in order, with its
    /// invocation. With signing disabled, no sign stage stands in the plan.
    pub fn plan(&self, m: &Manifest, platform: Platform) -> (r: Vec<(Stage, Invocation)>)
        ensures
            r@.len() == spec_stage_list(self.spec_sign()).len(),
            forall|i: int|
                0 <= i < r@.len() ==> #[trigger] r@[i].0 == spec_stage_list(self.spec_sign())[i],
            r@[0].1@ == spec_build_invocation(self.spec_capture_output()),
            r@[1].1@ == spec_compile_invocation(m@, platform, self.spec_capture_output()),
            r@[2].1@ == spec_link_invocation(m@, platform, self.spec_capture_output()),
            self.spec_sign() ==> r@[3].1@ == spec_sign_invocation(
                m@,
                platform,
                self.spec_capture_output(),
            ),
    {
        let mut r: Vec<(Stage, Invocation)> = Vec::new();
        r.push((Stage::Build, self.build_invocation()));
        r.push((Stage::Compile, self.compile_invocation(m, platform)));
        r.push((Stage::Link, self.link_invocation(m, platform)));
        if self.sign {
            r.push((Stage::Sign, self.sign_invocation(m, platform)));
        }
        r
    }
}

impl Default for Wix {
    /// The default options: no signing, output suppressed.
    fn default() -> (r: Self)
        ensures
            !r.spec_sign(),
            r.spec_capture_output(),
    {
        Wix::new()
    }
}

/// Whether a recorded outcome counts as a stage failure: the process ran to
/// completion (`Some`) and reported a failing exit status. A process that
/// could not be spawned at all (`None`) is passed over, as the pipeline's
/// policy stands.
pub open spec fn spec_stage_failed(outcome: Option<bool>) -> bool {
    outcome == Some(false)
}

/// Where a run stands after some outcomes have been recorded.
pub enum RunState {
    /// More stages remain and none has failed.
    Running,
    /// A stage failed; the run ends with its error.
    Failed(SpecError),
    /// Every stage was executed and none failed.
    Succeeded,
}

/// The state a run reaches after executing its stages in order against the
/// recorded outcomes: the first failing outcome ends the run with that
/// stage's error; with no failure the run succeeds once every stage is done.
pub open spec fn spec_pipeline(stages: Seq<Stage>, outcomes: Seq<Option<bool>>) -> RunState
    recommends
        outcomes.len() <= stages.len(),
    decreases outcomes.len(),
{
    if outcomes.len() == 0 {
        if stages.len() == 0 {
            RunState::Succeeded
        } else {
            RunState::Running
        }
    } else if spec_stage_failed(outcomes[0]) {
        RunState::Failed(spec_stage_error(stages[0]))
    } else {
        spec_pipeline(stages.drop_first(), outcomes.drop_first())
    }
}

/// A run is still running only while outcomes are missing, and has succeeded
/// only once every stage has an outcome.
pub proof fn lemma_state_shape(stages: Seq<Stage>, outcomes: Seq<Option<bool>>)
    requires
        outcomes.len() <= stages.len(),
    ensures
        spec_pipeline(stages, outcomes) is Running ==> outcomes.len() < stages.len(),
        spec_pipeline(stages, outcomes) is Succeeded ==> outcomes.len() == stages.len(),
    decreases outcomes.len(),
{
    if outcomes.len() == 0 {
    } else if spec_stage_failed(outcomes[0]) {
    } else {
        lemma_state_shape(stages.drop_first(), outcomes.drop_first());
    }
}

/// Recording one more outcome moves a running pipeline to the failure of the
/// stage that outcome belongs to, to success when it was the last stage, or
/// keeps it running.
pub proof fn lemma_pipeline_push(stages: Seq<Stage>, outcomes: Seq<Option<bool>>, o: Option<bool>)
    requires
        outcomes.len() < stages.len(),
        spec_pipeline(stages, outcomes) is Running,
    ensures
        spec_pipeline(stages, outcomes.push(o)) == (if spec_stage_failed(o) {
            RunState::Failed(spec_stage_error(stages[outcomes.len() as int]))
        } else if outcomes.len() + 1 == stages.len() {
            RunState::Succeeded
        } else {
            RunState::Running
        }),
    decreases outcomes.len(),
{
    let pushed = outcomes.push(o);
    assert(pushed.len() == outcomes.len() + 1);
    if outcomes.len() == 0 {
        assert(pushed[0] == o);
        if spec_stage_failed(o) {
            assert(spec_pipeline(stages, pushed) == RunState::Failed(spec_stage_error(stages[0])));
        } else {
            assert(pushed.drop_first() =~= Seq::<Option<bool>>::empty());
            assert(spec_pipeline(stages, pushed) == spec_pipeline(
                stages.drop_first(),
                pushed.drop_first(),
            ));
            if stages.len() == 1 {
                assert(stages.drop_first().len() == 0);
            } else {
                assert(stages.drop_first().len() > 0);
            }
        }
    } else {
        assert(pushed[0] == outcomes[0]);
        assert(!spec_stage_failed(outcomes[0]));
        assert(spec_pipeline(stages, outcomes) == spec_pipeline(
            stages.drop_first(),
            outcomes.drop_first(),
        ));
        assert(pushed.drop_first() =~= outcomes.drop_first().push(o));
        assert(spec_pipeline(stages, pushed) == spec_pipeline(
            stages.drop_first(),
            pushed.drop_first(),
        ));
        lemma_pipeline_push(stages.drop_first(), outcomes.drop_first(), o);
        assert(stages.drop_first()[outcomes.len() - 1] == stages[outcomes.len() as int]);
    }
}

/// One run of the pipeline, driven a stage at a time.
///
/// The caller asks for the current stage's invocation with [`Pipeline::current`],
/// spawns that process, and hands the outcome back with [`Pipeline::record`] —
/// `Some(success)` for a process that ran to completion, `None` for one that
/// could not be spawned — until [`Pipeline::is_done`]; [`Pipeline::into_result`]
/// then yields the run's result.
pub struct Pipeline {
    plan: Vec<(Stage, Invocation)>,
    next: usize,
    failure: Option<Error>,
    outcomes: Ghost<Seq<Option<bool>>>,
}

impl Pipeline {
    /// The stages of this run, in order.
    pub closed spec fn spec_stages(self) -> Seq<Stage> {
        Seq::new(self.plan@.len(), |i: int| self.plan@[i].0)
    }

    /// The invocations of this run, one per stage.
    pub closed spec fn spec_invocations(self) -> Seq<InvocationV> {
        Seq::new(self.plan@.len(), |i: int| self.plan@[i].1@)
    }

    /// The outcomes recorded so far, in order.
    pub closed spec fn spec_outcomes(self) -> Seq<Option<bool>> {
        self.outcomes@
    }

    /// Where this run stands.
    pub open spec fn spec_state(self) -> RunState {
        spec_pipeline(self.spec_stages(), self.spec_outcomes())
    }

    /// One outcome per executed stage, and the held failure agrees with the
    /// recorded outcomes.
    pub closed spec fn wf(self) -> bool {
        &&& self.outcomes@.len() == self.next
        &&& self.next <= self.plan@.len()
        &&& match spec_pipeline(self.spec_stages(), self.outcomes@) {
            RunState::Running => self.failure is None,
            RunState::Failed(e) => self.failure matches Some(er) && er@ == e,
            RunState::Succeeded => self.failure is None,
        }
    }

    /// Starts a run: the stages of [`Wix::plan`], with nothing executed yet.
    pub fn new(wix: &Wix, m: &Manifest, platform: Platform) -> (r: Pipeline)
        ensures
            r.wf(),
            r.spec_stages() == spec_stage_list(wix.spec_sign()),
            r.spec_invocations().len() == spec_stage_list(wix.spec_sign()).len(),
            r.spec_invocations()[0] == spec_build_invocation(wix.spec_capture_output()),
            r.spec_invocations()[1] == spec_compile_invocation(
                m@,
                platform,
                wix.spec_capture_output(),
            ),
            r.spec_invocations()[2] == spec_link_invocation(
                m@,
                platform,
                wix.spec_capture_output(),
            ),
            wix.spec_sign() ==> r.spec_invocations()[3] == spec_sign_invocation(
                m@,
                platform,
                wix.spec_capture_output(),
            ),
            r.spec_outcomes() == Seq::<Option<bool>>::empty(),
            r.spec_state() is Running,
    {
        let plan = wix.plan(m, platform);
        let r = Pipeline { plan, next: 0, failure: None, outcomes: Ghost(Seq::empty()) };
        proof {
            assert(r.spec_stages() =~= spec_stage_list(wix.spec_sign()));
        }
        r
    }

    /// Whether the run is over: a stage failed, or every stage was executed.
    pub fn is_done(&self) -> (r: bool)
        requires
            self.wf(),
        ensures
            r == !(self.spec_state() is Running),
    {
        proof {
            lemma_state_shape(self.spec_stages(), self.spec_outcomes());
        }
        if self.failure.is_some() {
            true
        } else {
            self.next == self.plan.len()
        }
    }

    /// How many stages were executed so far.
    pub fn executed(&self) -> (r: usize)
        requires
            self.wf(),
        ensures
            r as int == self.spec_outcomes().len(),
    {
        self.next
    }

    /// The stage to execute now, with its invocation.
    pub fn current(&self) -> (r: (Stage, &Invocation))
        requires
            self.wf(),
            self.spec_state() is Running,
        ensures
            r.0 == self.spec_stages()[self.spec_outcomes().len() as int],
            r.1@ == self.spec_invocations()[self.spec_outcomes().len() as int],
    {
        proof {
            lemma_state_shape(self.spec_stages(), self.spec_outcomes());
        }
        let pair = &self.plan[self.next];
        (pair.0, &pair.1)
    }

    /// Records the current stage's outcome: `Some(false)` — a completed
    /// process reporting failure — ends the run with that stage's error;
    /// `Some(true)` and `None` (a process that could not be spawned) let the
    /// run go on.
    pub fn record(&mut self, outcome: Option<bool>)
        requires
            old(self).wf(),
            old(self).spec_state() is Running,
        ensures
            final(self).wf(),
            final(self).spec_stages() == old(self).spec_stages(),
            final(self).spec_invocations() == old(self).spec_invocations(),
            final(self).spec_outcomes() == old(self).spec_outcomes().push(outcome),
            final(self).spec_state() == (if spec_stage_failed(outcome) {
                RunState::Failed(
                    spec_stage_error(
                        old(self).spec_stages()[old(self).spec_outcomes().len() as int],
                    ),
                )
            } else if old(self).spec_outcomes().len() + 1 == old(self).spec_stages().len() {
                RunState::Succeeded
            } else {
                RunState::Running
            }),
    {
        proof {
            lemma_state_shape(old(self).spec_stages(), old(self).spec_outcomes());
            lemma_pipeline_push(old(self).spec_stages(), old(self).spec_outcomes(), outcome);
        }
        let len = self.plan.len();
        assert(self.next < len);
        let failed: bool = match outcome {
            Some(success) => !success,
            None => false,
        };
        if failed {
            let stage = self.plan[self.next].0;
            self.failure = Some(stage_error(stage));
        }
        self.next = self.next + 1;
        self.outcomes = Ghost(self.outcomes@.push(outcome));
        proof {
            assert(self.spec_stages() =~= old(self).spec_stages());
            assert(self.spec_invocations() =~= old(self).spec_invocations());
        }
    }

    /// The result of a finished run: `Ok` when every executed stage's process
    /// succeeded, otherwise the first failing stage's error.
    pub fn into_result(self) -> (r: Result<(), Error>)
        requires
            self.wf(),
            !(self.spec_state() is Running),
        ensures
            self.spec_state() matches RunState::Failed(e) ==> (r matches Err(er) && er@ == e),
            self.spec_state() is Succeeded ==> r is Ok,
    {
        match self.failure {
            Some(e) => Err(e),
            None => Ok(()),
        }
    }
}

/// A failing build ends the run at once: with the build stage's failure as
/// the only recorded outcome, the run's state is the build error and no
/// longer running, so the compile, link and sign stages are never executed.
pub proof fn lemma_build_failure_stops_pipeline(sign: bool)
    ensures
        spec_pipeline(spec_stage_list(sign), seq![Some(false)]) == RunState::Failed(
            spec_stage_error(Stage::Build),
        ),
        !(spec_pipeline(spec_stage_list(sign), seq![Some(false)]) is Running),
{
    assert(spec_stage_list(sign)[0] == Stage::Build);
    assert(seq![Some(false)][0] == Some(false));
}

/// With signing disabled, no sign stage stands in the run at all, and the run
/// succeeds exactly when the build, compile and link processes all report
/// success.
pub proof fn lemma_unsigned_pipeline_success(outcomes: Seq<Option<bool>>)
    requires
        outcomes.len() == 3,
    ensures
        forall|i: int|
            0 <= i < spec_stage_list(false).len() ==> spec_stage_list(false)[i] != Stage::Sign,
        (spec_pipeline(spec_stage_list(false), outcomes) is Succeeded) <==> (!spec_stage_failed(
            outcomes[0],
        ) && !spec_stage_failed(outcomes[1]) && !spec_stage_failed(outcomes[2])),
{
    let stages = spec_stage_list(false);
    assert(stages.len() == 3);
    if spec_stage_failed(outcomes[0]) {
        assert(spec_pipeline(stages, outcomes) == RunState::Failed(spec_stage_error(stages[0])));
    } else {
        let s1 = stages.drop_first();
        let o1 = outcomes.drop_first();
        assert(spec_pipeline(stages, outcomes) == spec_pipeline(s1, o1));
        assert(o1[0] == outcomes[1] && o1.len() == 2 && s1.len() == 2);
        if spec_stage_failed(o1[0]) {
            assert(spec_pipeline(s1, o1) == RunState::Failed(spec_stage_error(s1[0])));
        } else {
            let s2 = s1.drop_first();
            let o2 = o1.drop_first();
            assert(spec_pipeline(s1, o1) == spec_pipeline(s2, o2));
            assert(o2[0] == outcomes[2] && o2.len() == 1 && s2.len() == 1);
            if spec_stage_failed(o2[0]) {
                assert(spec_pipeline(s2, o2) == RunState::Failed(spec_stage_error(s2[0])));
            } else {
                let s3 = s2.drop_first();
                let o3 = o2.drop_first();
                assert(spec_pipeline(s2, o2) == spec_pipeline(s3, o3));
                assert(o3.len() == 0 && s3.len() == 0);
                assert(spec_pipeline(s3, o3) == RunState::Succeeded);
            }
        }
    }
}

} // verus!
