//! Where the extension index lives.
use crate::paths::{join, path_joined};
use vstd::prelude::*;

verus! {

/// The installed extensions, indexed in one file.
pub struct ExtensionStore {
    /// The index file's path.
    pub index_path: String,
}

impl ExtensionStore {
    /// A store whose index is `extensions.json` inside `extensions_dir`.
    pub fn new(extensions_dir: &str) -> (r: Self)
        ensures
            r.index_path@ == path_joined(extensions_dir@, "extensions.json"@),
    {
        ExtensionStore { index_path: join(extensions_dir, "extensions.json") }
    }
}

} // verus!
