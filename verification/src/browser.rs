//! The embedded browser preview's tracked state: only whether the preview
//! webview is currently shown.

use vstd::prelude::*;

verus! {

/// Whether the preview webview is visible. The caller owns the surrounding
/// lock.
pub struct BrowserViewState {
    pub visible: bool,
}

impl BrowserViewState {
    /// A fresh state: the preview starts hidden.
    pub fn new() -> (r: Self)
        ensures
            !r.visible,
    {
        BrowserViewState { visible: false }
    }
}

/// The payload of a browser-load request.
pub struct BrowserLoadArgs {
    pub url: String,
    pub force_reload: Option<bool>,
}

} // verus!
