use vstd::prelude::*;

verus! {

/// The grappling hook's motion state: swinging at the ceiling, travelling
/// down, or being pulled back up.
#[derive(Clone, Copy, PartialEq, Eq, Structural, Debug)]
pub enum HookState {
    Idle,
    Extending,
    Retracting,
}

} // verus!
