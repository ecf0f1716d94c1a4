use vstd::prelude::*;

verus! {

/// The value a switch takes when the settings file leaves it out: on.
pub fn default_true() -> (b: bool)
    ensures
        b,
{
    true
}

} // verus!
