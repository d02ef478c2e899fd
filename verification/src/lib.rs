//! Bootstrap logic for a language-server installation: decide the platform,
//! compare the recorded version against the latest release tag, build the
//! download location, and drive the fetch-and-install steps to a launch
//! descriptor.

pub mod decide;
pub mod errors;
pub mod fetch;
pub mod launch;
pub mod ledger;
pub mod pipeline;
pub mod platform;
pub mod release;
pub mod text;
pub mod version;
