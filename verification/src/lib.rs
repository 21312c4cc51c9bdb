//! Native dialogues and menus for a Flutter app: what each dialogue and menu holds, how
//! the builders fill them, what a shown dialogue reports back and how its result reaches
//! the task awaiting it, which native entries a context menu gets, and the layout of the
//! default main menu bar. Showing them with a platform toolkit is left to the caller.

use vstd::prelude::*;

pub mod dialog;
pub mod menu;

verus! {

} // verus!
