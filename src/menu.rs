use vstd::prelude::*;

verus! {

/// The page a context drawer shows.
#[derive(Clone, Copy, Debug, Default, PartialEq, Eq, Structural)]
pub enum ContextPage {
    #[default]
    About,
}

/// Entries of the host's menu bar.
#[derive(Clone, Copy, Debug, PartialEq, Eq, Structural)]
pub enum MenuAction {
    About,
    NewTab,
}

} // verus!
