use vstd::prelude::*;

verus! {

/// What the contract records at initialization: the owner's address. This
/// core only ever reads it; no command writes it back.
#[derive(Debug, Clone, PartialEq)]
pub struct State {
    pub owner: String,
}

} // verus!
