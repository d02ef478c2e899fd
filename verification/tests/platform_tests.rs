use served_bootstrap::errors::InstallError;
use served_bootstrap::platform::{arch_name, os_name, resolve_arch, resolve_os, Arch, Os};

#[test]
fn arch_matrix_resolves() {
    assert_eq!(resolve_arch(Some("x86_64")), Ok(Arch::X86_64));
    assert_eq!(resolve_arch(Some("aarch64")), Ok(Arch::Arm64));
}

#[test]
fn os_matrix_resolves() {
    assert_eq!(resolve_os(Some("macos")), Ok(Os::Macos));
    assert_eq!(resolve_os(Some("linux")), Ok(Os::Linux));
    assert_eq!(resolve_os(Some("windows")), Ok(Os::Windows));
}

#[test]
fn unknown_arch_is_rejected() {
    assert_eq!(
        resolve_arch(Some("mips")),
        Err(InstallError::UnsupportedArchitecture)
    );
    assert_eq!(
        resolve_arch(Some("arm64")),
        Err(InstallError::UnsupportedArchitecture)
    );
    assert_eq!(
        resolve_arch(Some("")),
        Err(InstallError::UnsupportedArchitecture)
    );
    assert_eq!(resolve_arch(None), Err(InstallError::UnsupportedArchitecture));
}

#[test]
fn unknown_os_is_rejected() {
    assert_eq!(resolve_os(Some("freebsd")), Err(InstallError::UnsupportedPlatform));
    assert_eq!(resolve_os(Some("Linux")), Err(InstallError::UnsupportedPlatform));
    assert_eq!(resolve_os(Some("")), Err(InstallError::UnsupportedPlatform));
    assert_eq!(resolve_os(None), Err(InstallError::UnsupportedPlatform));
}

#[test]
fn tokens_match_release_naming() {
    assert_eq!(arch_name(Arch::X86_64), "x86_64");
    assert_eq!(arch_name(Arch::Arm64), "arm64");
    assert_eq!(os_name(Os::Macos), "macos");
    assert_eq!(os_name(Os::Linux), "linux");
    assert_eq!(os_name(Os::Windows), "windows");
}

#[test]
fn raw_arm_name_maps_to_release_token() {
    // The environment says "aarch64"; the release assets say "arm64".
    let arch = resolve_arch(Some("aarch64")).unwrap();
    assert_eq!(arch_name(arch), "arm64");
}
