use vstd::prelude::*;

verus! {

/// What a unit is currently setting out to do.
#[derive(PartialEq, Eq, Structural, Clone, Copy, Debug)]
pub enum Purpose {
    /// Gather the resource of the given kind.
    ResourceGathering(i32),
    ResourceStoraging,
    RelieveDesire,
    Management,
    /// Make the item of the given kind.
    Making(i32),
    Patrol,
    Attack,
    MakeOrder,
}

/// The plan of one unit: its purpose, the entity it is heading for (by the
/// entity's bits), and the purpose for which its behaviour has last been set up.
#[derive(PartialEq, Eq, Structural, Clone, Copy, Debug)]
pub struct UnitAction {
    pub purpose: Option<Purpose>,
    pub target: Option<u64>,
    pub purpose_is_end: Option<Purpose>,
}

impl Default for UnitAction {
    /// A unit with no purpose, no target and no behaviour set up.
    fn default() -> (a: Self)
        ensures
            a == (UnitAction { purpose: None, target: None, purpose_is_end: None }),
    {
        UnitAction { purpose: None, target: None, purpose_is_end: None }
    }
}

/// Whether two optional purposes are the same.
pub(crate) fn same_purpose(a: &Option<Purpose>, b: &Option<Purpose>) -> (same: bool)
    ensures
        same == (*a == *b),
{
    match (a, b) {
        (None, None) => true,
        (Some(x), Some(y)) => *x == *y,
        _ => false,
    }
}

} // verus!
