//! The target platform of the installer: 32-bit or 64-bit x86.

use vstd::prelude::*;

verus! {

/// The two platforms an installer can be produced for.
///
/// Each carries a canonical architecture tag (`i686` / `x86_64`), used in
/// file names and tool arguments, and a canonical short name (`x86` / `x64`),
/// used for the installer compiler's platform variable.
#[derive(Debug, Clone, Copy, PartialEq, Eq, Structural)]
pub enum Platform {
    X86,
    X64,
}

impl Platform {
    /// The architecture tag of this platform.
    pub open spec fn spec_arch(self) -> Seq<char> {
        match self {
            Platform::X86 => "i686"@,
            Platform::X64 => "x86_64"@,
        }
    }

    /// The short display name of this platform.
    pub open spec fn spec_short_name(self) -> Seq<char> {
        match self {
            Platform::X86 => "x86"@,
            Platform::X64 => "x64"@,
        }
    }

    /// Gets the architecture tag: `i686` for `X86`, `x86_64` for `X64`.
    pub fn arch(&self) -> (r: &'static str)
        ensures
            r@ == self.spec_arch(),
    {
        match *self {
            Platform::X86 => "i686",
            Platform::X64 => "x86_64",
        }
    }

    /// Gets the short name: `x86` for `X86`, `x64` for `X64`.
    pub fn short_name(&self) -> (r: &'static str)
        ensures
            r@ == self.spec_short_name(),
    {
        match *self {
            Platform::X86 => "x86",
            Platform::X64 => "x64",
        }
    }

    /// Selects the platform for a host: `X64` on a 64-bit x86 host,
    /// `X86` otherwise. The caller supplies the host flag, so the
    /// choice stays a runtime, testable decision.
    pub fn for_host(x86_64: bool) -> (r: Platform)
        ensures
            r == (if x86_64 { Platform::X64 } else { Platform::X86 }),
    {
        if x86_64 {
            Platform::X64
        } else {
            Platform::X86
        }
    }
}

} // verus!
