//! The updater's tracked state: the release last seen and the downloaded
//! artifact's path, once one exists.

use vstd::prelude::*;

verus! {

/// One published release, as read from the release feed.
pub struct ReleaseInfo {
    pub version: String,
    pub notes: Option<String>,
    pub published_at: Option<String>,
    pub download_url: Option<String>,
}

/// What the updater remembers between checks. The caller owns the
/// surrounding lock.
pub struct UpdateState {
    pub latest: Option<ReleaseInfo>,
    pub downloaded_path: Option<String>,
}

impl UpdateState {
    /// A fresh state: nothing seen, nothing downloaded.
    pub fn new() -> (r: Self)
        ensures
            r.latest is None,
            r.downloaded_path is None,
    {
        UpdateState { latest: None, downloaded_path: None }
    }
}

} // verus!
