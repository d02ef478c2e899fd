use served_bootstrap::errors::InstallError;
use served_bootstrap::fetch::{
    archive_format, check_download_status, download_url, ext_name, metadata_url, ArchiveFormat,
};
use served_bootstrap::launch::{
    base_args, build_args, join_path, language_id, marker_file_name, server_executable,
};
use served_bootstrap::platform::{Arch, Os, Platform};

#[test]
fn download_url_linux() {
    let p = Platform { arch: Arch::X86_64, os: Os::Linux };
    assert_eq!(
        download_url("1.9.0", p),
        "https://github.com/Pure-D/serve-d/releases/download/1.9.0/serve-d_1.9.0-x86_64-linux.tar.xz"
    );
}

#[test]
fn download_url_windows() {
    let p = Platform { arch: Arch::X86_64, os: Os::Windows };
    assert_eq!(
        download_url("1.9.0", p),
        "https://github.com/Pure-D/serve-d/releases/download/1.9.0/serve-d_1.9.0-x86_64-windows.zip"
    );
}

#[test]
fn download_url_macos_arm() {
    let p = Platform { arch: Arch::Arm64, os: Os::Macos };
    assert_eq!(
        download_url("0.8.0-beta.14", p),
        "https://github.com/Pure-D/serve-d/releases/download/0.8.0-beta.14/serve-d_0.8.0-beta.14-arm64-macos.tar.xz"
    );
}

#[test]
fn metadata_endpoint_is_fixed() {
    assert_eq!(
        metadata_url(),
        "https://api.github.com/repos/Pure-D/serve-d/releases/latest"
    );
}

#[test]
fn archive_format_by_os() {
    assert_eq!(archive_format(Os::Windows), ArchiveFormat::Zip);
    assert_eq!(archive_format(Os::Linux), ArchiveFormat::TarXz);
    assert_eq!(archive_format(Os::Macos), ArchiveFormat::TarXz);
    assert_eq!(ext_name(ArchiveFormat::Zip), "zip");
    assert_eq!(ext_name(ArchiveFormat::TarXz), "tar.xz");
}

#[test]
fn status_only_200_succeeds() {
    assert!(check_download_status(200).is_ok());
    assert_eq!(
        check_download_status(404),
        Err(InstallError::DownloadFailed(404))
    );
    assert_eq!(
        check_download_status(500),
        Err(InstallError::DownloadFailed(500))
    );
}

#[test]
fn executable_name_by_os() {
    assert_eq!(server_executable(Os::Linux), "serve-d");
    assert_eq!(server_executable(Os::Macos), "serve-d");
    assert_eq!(server_executable(Os::Windows), "serve-d.exe");
}

#[test]
fn join_path_adds_single_separator() {
    assert_eq!(join_path("file:///work", "serve-d"), "file:///work/serve-d");
    assert_eq!(join_path("file:///work/", "serve-d"), "file:///work/serve-d");
    assert_eq!(join_path("", "serve-d"), "/serve-d");
}

#[test]
fn base_arguments_are_fixed() {
    assert_eq!(base_args(), vec!["--require".to_string(), "d".to_string()]);
    assert_eq!(language_id(), "d");
    assert_eq!(marker_file_name(), "version.txt");
}

#[test]
fn user_arguments_follow_base() {
    let mut user = vec!["--verbose".to_string(), "--log".to_string()];
    let args = build_args(&mut user);
    assert_eq!(
        args,
        vec![
            "--require".to_string(),
            "d".to_string(),
            "--verbose".to_string(),
            "--log".to_string()
        ]
    );
    assert!(user.is_empty());
}

#[test]
fn error_messages_are_fixed() {
    assert_eq!(InstallError::UnsupportedPlatform.message(), "unsupported platform");
    assert_eq!(
        InstallError::UnsupportedArchitecture.message(),
        "unsupported architecture"
    );
    assert_eq!(InstallError::DownloadFailed(404).message(), "fetching the archive failed");
}
