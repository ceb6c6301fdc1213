use vstd::prelude::*;

verus! {

/// The user configuration: at most an override for the trashbin location.
#[derive(Debug, Clone)]
pub struct XiloConfig {
    pub trashbin_path: Option<String>,
}

} // verus!
