use vstd::prelude::*;

use crate::errors::InstallError;
use crate::text::str_eq;

verus! {

/// The processor architectures the release naming scheme knows.
#[derive(Clone, Copy, Debug, PartialEq, Eq, Structural)]
pub enum Arch {
    X86_64,
    Arm64,
}

/// The operating systems the release naming scheme knows.
#[derive(Clone, Copy, Debug, PartialEq, Eq, Structural)]
pub enum Os {
    Macos,
    Linux,
    Windows,
}

/// A fully resolved platform.
#[derive(Clone, Copy, Debug, PartialEq, Eq, Structural)]
pub struct Platform {
    pub arch: Arch,
    pub os: Os,
}

/// The token that names an architecture in a release asset.
pub open spec fn arch_label(a: Arch) -> Seq<char> {
    match a {
        Arch::X86_64 => "x86_64"@,
        Arch::Arm64 => "arm64"@,
    }
}

/// The token that names an operating system in a release asset.
pub open spec fn os_label(o: Os) -> Seq<char> {
    match o {
        Os::Macos => "macos"@,
        Os::Linux => "linux"@,
        Os::Windows => "windows"@,
    }
}

/// The architecture a raw environment string resolves to, if any.
pub open spec fn arch_from(raw: Seq<char>) -> Option<Arch> {
    if raw == "x86_64"@ {
        Some(Arch::X86_64)
    } else if raw == "aarch64"@ {
        Some(Arch::Arm64)
    } else {
        None
    }
}

/// The operating system a raw environment string resolves to, if any.
pub open spec fn os_from(raw: Seq<char>) -> Option<Os> {
    if raw == "macos"@ {
        Some(Os::Macos)
    } else if raw == "linux"@ {
        Some(Os::Linux)
    } else if raw == "windows"@ {
        Some(Os::Windows)
    } else {
        None
    }
}

/// Resolve the raw architecture string of an environment query. `None`
/// stands for a query that failed. Exactly the raw values "x86_64" and
/// "aarch64" resolve; everything else is rejected as unsupported.
pub fn resolve_arch(raw: Option<&str>) -> (r: Result<Arch, InstallError>)
    ensures
        r is Ok <==> (raw matches Some(s) && arch_from(s@) is Some),
        r matches Ok(a) ==> (raw matches Some(s) && arch_from(s@) == Some(a)),
        r is Err ==> r == Err::<Arch, InstallError>(InstallError::UnsupportedArchitecture),
{
    match raw {
        Some(s) => {
            if str_eq(s, "x86_64") {
                Ok(Arch::X86_64)
            } else if str_eq(s, "aarch64") {
                Ok(Arch::Arm64)
            } else {
                Err(InstallError::UnsupportedArchitecture)
            }
        },
        None => Err(InstallError::UnsupportedArchitecture),
    }
}

/// Resolve the raw operating-system string of an environment query. `None`
/// stands for a query that failed. Exactly the raw values "macos", "linux"
/// and "windows" resolve; everything else is rejected as unsupported.
pub fn resolve_os(raw: Option<&str>) -> (r: Result<Os, InstallError>)
    ensures
        r is Ok <==> (raw matches Some(s) && os_from(s@) is Some),
        r matches Ok(o) ==> (raw matches Some(s) && os_from(s@) == Some(o)),
        r is Err ==> r == Err::<Os, InstallError>(InstallError::UnsupportedPlatform),
{
    match raw {
        Some(s) => {
            if str_eq(s, "macos") {
                Ok(Os::Macos)
            } else if str_eq(s, "linux") {
                Ok(Os::Linux)
            } else if str_eq(s, "windows") {
                Ok(Os::Windows)
            } else {
                Err(InstallError::UnsupportedPlatform)
            }
        },
        None => Err(InstallError::UnsupportedPlatform),
    }
}

/// The architecture token as text.
pub fn arch_name(a: Arch) -> (r: String)
    ensures
        r@ == arch_label(a),
{
    match a {
        Arch::X86_64 => "x86_64".to_owned(),
        Arch::Arm64 => "arm64".to_owned(),
    }
}

/// The operating-system token as text.
pub fn os_name(o: Os) -> (r: String)
    ensures
        r@ == os_label(o),
{
    match o {
        Os::Macos => "macos".to_owned(),
        Os::Linux => "linux".to_owned(),
        Os::Windows => "windows".to_owned(),
    }
}

} // verus!
