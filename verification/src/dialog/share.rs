use vstd::prelude::*;

verus! {

/// Defines a share dialogue.
#[derive(Clone)]
pub struct ShareDialog {
    /// The paths of the items to share.
    pub paths: Vec<String>,
}

} // verus!
