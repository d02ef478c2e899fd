use vstd::prelude::*;

verus! {

/// One downloadable asset attached to a release, as the metadata endpoint
/// describes it. The fields are carried for completeness; the download
/// location is rebuilt deterministically rather than picked from here.
#[derive(Debug, PartialEq)]
pub struct AssetDescriptor {
    pub id: isize,
    pub name: String,
    pub size: isize,
    pub download_count: isize,
    pub browser_download_url: String,
    pub created_at: String,
}

/// The latest release, as the metadata endpoint describes it: its tag and
/// its assets.
#[derive(Debug, PartialEq)]
pub struct ReleaseInfo {
    pub tag_name: String,
    pub assets: Vec<AssetDescriptor>,
}

} // verus!
