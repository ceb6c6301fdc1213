use vstd::prelude::*;

verus! {

/// The parsed command surface: target paths and the policy flags that apply
/// uniformly to every target of one invocation.
#[derive(Debug, Clone)]
pub struct XiloCommand {
    pub filenames: Vec<String>,
    /// Remove directory recursively.
    pub recursive: bool,
    /// Force to delete files/directories.
    pub force: bool,
    /// Empty the trashbin if the targets are empty. Otherwise, delete contents unrecoverably.
    pub permanent: bool,
    /// Show the trashbin space.
    pub show_space: bool,
    /// Show the trashbin space with raw byte.
    pub raw: bool,
}

} // verus!
