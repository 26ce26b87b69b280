use vstd::prelude::*;

verus! {

#[derive(Debug, Clone)]
pub struct Reconnect {
    /// Always None
    pub data: Option<()>,
}

} // verus!
