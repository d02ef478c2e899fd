use vstd::prelude::*;
use vstd::string::StringExecFns;

use crate::errors::InstallError;
use crate::platform::{arch_label, arch_name, os_label, os_name, Os, Platform};

verus! {

/// The archive container a release asset comes in.
#[derive(Clone, Copy, Debug, PartialEq, Eq, Structural)]
pub enum ArchiveFormat {
    Zip,
    TarXz,
}

/// The file extension of an archive format.
pub open spec fn ext_label(f: ArchiveFormat) -> Seq<char> {
    match f {
        ArchiveFormat::Zip => "zip"@,
        ArchiveFormat::TarXz => "tar.xz"@,
    }
}

/// The archive format published for an operating system: zip on windows,
/// tar.xz everywhere else.
pub open spec fn spec_archive_format(o: Os) -> ArchiveFormat {
    if o == Os::Windows {
        ArchiveFormat::Zip
    } else {
        ArchiveFormat::TarXz
    }
}

/// Pick the archive format for an operating system.
pub fn archive_format(o: Os) -> (r: ArchiveFormat)
    ensures
        r == spec_archive_format(o),
{
    match o {
        Os::Windows => ArchiveFormat::Zip,
        _ => ArchiveFormat::TarXz,
    }
}

/// The extension token as text.
pub fn ext_name(f: ArchiveFormat) -> (r: String)
    ensures
        r@ == ext_label(f),
{
    match f {
        ArchiveFormat::Zip => "zip".to_owned(),
        ArchiveFormat::TarXz => "tar.xz".to_owned(),
    }
}

/// The fixed endpoint that serves the latest release metadata.
pub open spec fn spec_metadata_url() -> Seq<char> {
    "https://api.github.com/repos/Pure-D/serve-d/releases/latest"@
}

/// The metadata endpoint as text.
pub fn metadata_url() -> (r: String)
    ensures
        r@ == spec_metadata_url(),
{
    "https://api.github.com/repos/Pure-D/serve-d/releases/latest".to_owned()
}

/// Where the archive for a tag and a platform is published:
/// `<base>/<tag>/serve-d_<tag>-<arch>-<os>.<ext>`.
pub open spec fn spec_download_url(tag: Seq<char>, p: Platform) -> Seq<char> {
    "https://github.com/Pure-D/serve-d/releases/download/"@ + tag + "/serve-d_"@ + tag + "-"@
        + arch_label(p.arch) + "-"@ + os_label(p.os) + "."@ + ext_label(spec_archive_format(p.os))
}

/// Build the download location for a release tag on a platform. The result
/// is a pure function of the arguments.
pub fn download_url(tag: &str, p: Platform) -> (r: String)
    ensures
        r@ == spec_download_url(tag@, p),
{
    let mut url = "https://github.com/Pure-D/serve-d/releases/download/".to_owned();
    url.append(tag);
    url.append("/serve-d_");
    url.append(tag);
    url.append("-");
    url.append(arch_name(p.arch).as_str());
    url.append("-");
    url.append(os_name(p.os).as_str());
    url.append(".");
    url.append(ext_name(archive_format(p.os)).as_str());
    proof {
        assert(url@ =~= spec_download_url(tag@, p));
    }
    url
}

/// Judge the status code of the archive download: only 200 counts as
/// success, every other status fails with that code.
pub fn check_download_status(status: u16) -> (r: Result<(), InstallError>)
    ensures
        status == 200 ==> r is Ok,
        status != 200 ==> r == Err::<(), InstallError>(InstallError::DownloadFailed(status)),
{
    if status == 200 {
        Ok(())
    } else {
        Err(InstallError::DownloadFailed(status))
    }
}

} // verus!
