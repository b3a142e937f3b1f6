//! What the editor can preview.

use vstd::prelude::*;

verus! {

/// The kinds of preview that the editor offers.
#[derive(Debug, PartialEq, Eq, Hash, PartialOrd, Ord, Clone, Copy)]
pub enum EditorPreview {
    Explosion,
}

impl EditorPreview {
    /// The title of the preview's window.
    pub fn get_name(&self) -> (name: &'static str)
        ensures
            name@ == "Explosion Preview"@,
    {
        match self {
            EditorPreview::Explosion => "Explosion Preview",
        }
    }
}

} // verus!
