use vstd::prelude::*;
use crate::chance::{gen_below, thread_rng};
use crate::unit::{same_purpose, Purpose, UnitAction};

verus! {

/// The gathering behaviour of a bee: the kind of resource it gathers, whether
/// it stands close enough to its target, and whether it is on its way there.
#[derive(PartialEq, Eq, Structural, Clone, Copy, Debug)]
pub struct BeeResourceGathering {
    pub id: i32,
    pub distance_ok: bool,
    pub is_moving: bool,
}

/// The behaviour that a bee takes up to pursue its purpose.
#[derive(PartialEq, Eq, Structural, Clone, Copy, Debug)]
pub enum BeeTask {
    MakeOrder,
    Management,
    RelieveDesire,
    Attack,
    ResourceGathering(BeeResourceGathering),
    ResourceStoraging,
}

/// The behaviour that serves a purpose, for the purposes that have one.
pub open spec fn task_for(purpose: Option<Purpose>) -> Option<BeeTask> {
    match purpose {
        Some(Purpose::MakeOrder) => Some(BeeTask::MakeOrder),
        Some(Purpose::Management) => Some(BeeTask::Management),
        Some(Purpose::RelieveDesire) => Some(BeeTask::RelieveDesire),
        Some(Purpose::Attack) => Some(BeeTask::Attack),
        Some(Purpose::ResourceGathering(id)) => Some(
            BeeTask::ResourceGathering(BeeResourceGathering { id, distance_ok: false, is_moving: false }),
        ),
        Some(Purpose::ResourceStoraging) => Some(BeeTask::ResourceStoraging),
        _ => None,
    }
}

/// The behaviour a bee takes up on this frame: the one for its purpose, when
/// its behaviour has not been set up for that purpose yet.
pub open spec fn task_to_start(action: UnitAction) -> Option<BeeTask> {
    if action.purpose != action.purpose_is_end {
        task_for(action.purpose)
    } else {
        None
    }
}

/// The plan after the bee has taken up the behaviour that `task_to_start` gives.
pub open spec fn after_dispatch(action: UnitAction) -> UnitAction {
    if task_to_start(action) is Some {
        UnitAction { purpose_is_end: action.purpose, ..action }
    } else {
        action
    }
}

/// Sets up a bee's behaviour for a purpose that is new to it.
///
/// When the bee's purpose differs from the one its behaviour serves and the
/// purpose has a behaviour, returns that behaviour (a gathering behaviour
/// starts out neither close nor moving) and records the purpose as served.
/// Otherwise returns `None` and leaves the plan as it is.
pub fn dispatch_purpose(action: &mut UnitAction) -> (task: Option<BeeTask>)
    ensures
        task == task_to_start(*old(action)),
        *final(action) == after_dispatch(*old(action)),
{
    if same_purpose(&action.purpose, &action.purpose_is_end) {
        return None;
    }
    let task = match action.purpose {
        Some(Purpose::MakeOrder) => Some(BeeTask::MakeOrder),
        Some(Purpose::Management) => Some(BeeTask::Management),
        Some(Purpose::RelieveDesire) => Some(BeeTask::RelieveDesire),
        Some(Purpose::Attack) => Some(BeeTask::Attack),
        Some(Purpose::ResourceGathering(id)) => Some(
            BeeTask::ResourceGathering(BeeResourceGathering { id, distance_ok: false, is_moving: false }),
        ),
        Some(Purpose::ResourceStoraging) => Some(BeeTask::ResourceStoraging),
        _ => None,
    };
    if task.is_some() {
        action.purpose_is_end = action.purpose;
    }
    task
}

/// A behaviour is set up once per purpose: right after a dispatch, a second
/// dispatch starts nothing and changes nothing.
pub proof fn lemma_dispatch_is_idempotent(action: UnitAction)
    ensures
        task_to_start(after_dispatch(action)) is None,
        after_dispatch(after_dispatch(action)) == after_dispatch(action),
{
}

/// A bee whose purpose differs from the one its behaviour serves (or has no
/// behaviour set up at all) takes up the behaviour of that purpose: each
/// purpose with a behaviour starts its own one, gathering starts neither near
/// nor walking and gathers the purpose's kind, and the purpose is recorded as
/// served. Patrol, making and no purpose start nothing and change nothing.
pub proof fn lemma_new_purpose_starts_its_behaviour(action: UnitAction)
    ensures
        action.purpose != action.purpose_is_end ==> {
            &&& action.purpose == Some(Purpose::MakeOrder) ==> task_to_start(action) == Some(BeeTask::MakeOrder)
            &&& action.purpose == Some(Purpose::Management) ==> task_to_start(action) == Some(BeeTask::Management)
            &&& action.purpose == Some(Purpose::RelieveDesire) ==> task_to_start(action) == Some(BeeTask::RelieveDesire)
            &&& action.purpose == Some(Purpose::Attack) ==> task_to_start(action) == Some(BeeTask::Attack)
            &&& action.purpose == Some(Purpose::ResourceStoraging) ==> task_to_start(action) == Some(BeeTask::ResourceStoraging)
            &&& forall|id: i32| action.purpose == Some(Purpose::ResourceGathering(id)) ==> task_to_start(action)
                == Some(BeeTask::ResourceGathering(BeeResourceGathering { id, distance_ok: false, is_moving: false }))
        },
        action.purpose != action.purpose_is_end && task_to_start(action) is Some ==> after_dispatch(action) == (
            UnitAction { purpose: action.purpose, target: action.target, purpose_is_end: action.purpose })
        ,
        action.purpose == action.purpose_is_end ==> task_to_start(action) is None && after_dispatch(action) == action,
        (action.purpose is None || action.purpose == Some(Purpose::Patrol)
            || (action.purpose matches Some(Purpose::Making(_))))
            ==> task_to_start(action) is None && after_dispatch(action) == action,
{
}

/// The random draws that settle a purpose-less bee's new purpose.
#[derive(PartialEq, Eq, Structural, Clone, Copy, Debug)]
pub struct PurposeRolls {
    /// Below 10; under 3 the bee follows its colony's order.
    pub follow: usize,
    /// Below 10; under 3 the bee takes up one of the colony duties.
    pub duty: usize,
    /// Below 3; which duty: management, patrol or relieving its desires.
    pub duty_pick: usize,
    /// Below 2; which resource a loaded bee gathers: kind 0 or kind 2.
    pub resource_pick: usize,
}

/// The draws lie in the ranges they are drawn from.
pub open spec fn rolls_in_range(r: PurposeRolls) -> bool {
    r.follow < 10 && r.duty < 10 && r.duty_pick < 3 && r.resource_pick < 2
}

/// The colony duty with the given number.
pub open spec fn duty(pick: int) -> Purpose {
    if pick == 0 {
        Purpose::Management
    } else if pick == 1 {
        Purpose::Patrol
    } else {
        Purpose::RelieveDesire
    }
}

/// The kind of resource with the given number.
pub open spec fn resource_kind(pick: int) -> i32 {
    if pick == 0 { 0 } else { 2 }
}

/// The purpose of a bee after the purpose step, given the draws.
///
/// A bee with a purpose keeps it. Otherwise: an influential bee in a colony
/// without an order sets out to make one; else with the first draw under 3
/// the bee takes the colony's order (possibly none); else with the second
/// draw under 3 it takes up a duty; else a bee whose inventory is more than
/// half full, by size or by weight, gathers resources; any other bee stores.
pub open spec fn purpose_after(
    current: Option<Purpose>,
    order: Option<Purpose>,
    influential: bool,
    half_loaded: bool,
    r: PurposeRolls,
) -> Option<Purpose> {
    if current is Some {
        current
    } else if order is None && influential {
        Some(Purpose::MakeOrder)
    } else if r.follow < 3 {
        order
    } else if r.duty < 3 {
        Some(duty(r.duty_pick as int))
    } else if half_loaded {
        Some(Purpose::ResourceGathering(resource_kind(r.resource_pick as int)))
    } else {
        Some(Purpose::ResourceStoraging)
    }
}

/// The purpose step for given draws; see `purpose_after`.
pub fn purpose_from_rolls(
    current: &Option<Purpose>,
    order: &Option<Purpose>,
    influential: bool,
    half_loaded: bool,
    rolls: PurposeRolls,
) -> (p: Option<Purpose>)
    requires
        rolls.duty_pick < 3,
        rolls.resource_pick < 2,
    ensures
        p == purpose_after(*current, *order, influential, half_loaded, rolls),
{
    if current.is_some() {
        *current
    } else if order.is_none() && influential {
        Some(Purpose::MakeOrder)
    } else if rolls.follow < 3 {
        *order
    } else if rolls.duty < 3 {
        Some(duty_purpose(rolls.duty_pick))
    } else if half_loaded {
        Some(Purpose::ResourceGathering(resource_purpose_kind(rolls.resource_pick)))
    } else {
        Some(Purpose::ResourceStoraging)
    }
}

fn duty_purpose(pick: usize) -> (p: Purpose)
    requires
        pick < 3,
    ensures
        p == duty(pick as int),
{
    if pick == 0 {
        Purpose::Management
    } else if pick == 1 {
        Purpose::Patrol
    } else {
        Purpose::RelieveDesire
    }
}

fn resource_purpose_kind(pick: usize) -> (kind: i32)
    requires
        pick < 2,
    ensures
        kind == resource_kind(pick as int),
{
    if pick == 0 { 0 } else { 2 }
}

/// The purpose step of one bee, with draws from the thread's generator.
///
/// `order` is the order of the bee's colony, `influential` whether the bee's
/// influence is at least 10, `half_loaded` whether its inventory is more than
/// half full by size or by weight. The four draws are made from their ranges
/// and the decision is `purpose_from_rolls` on them, so the result is
/// `purpose_after` for some draws in range.
pub fn choose_purpose(
    current: &Option<Purpose>,
    order: &Option<Purpose>,
    influential: bool,
    half_loaded: bool,
) -> (p: Option<Purpose>)
    ensures
        exists|r: PurposeRolls|
            rolls_in_range(r) && p == purpose_after(*current, *order, influential, half_loaded, r),
        *current is Some ==> p == *current,
        *current is None && *order is None && influential ==> p == Some(Purpose::MakeOrder),
{
    let mut rng = thread_rng();
    let follow = gen_below(&mut rng, 10);
    let duty = gen_below(&mut rng, 10);
    let duty_pick = gen_below(&mut rng, 3);
    let resource_pick = gen_below(&mut rng, 2);
    let rolls = PurposeRolls { follow, duty, duty_pick, resource_pick };
    let p = purpose_from_rolls(current, order, influential, half_loaded, rolls);
    assert(rolls_in_range(rolls));
    p
}

/// The purpose step never gives a bee the purpose of making an order when
/// its colony already has one, and never overrides a purpose a bee has.
pub proof fn lemma_purpose_step_keeps_purpose(
    current: Option<Purpose>,
    order: Option<Purpose>,
    influential: bool,
    half_loaded: bool,
    r: PurposeRolls,
)
    ensures
        current is Some ==> purpose_after(current, order, influential, half_loaded, r) == current,
        current is None && order is Some && order != Some(Purpose::MakeOrder)
            ==> purpose_after(current, order, influential, half_loaded, r) != Some(Purpose::MakeOrder),
{
}

/// The colony a newly spawned bee belongs to: the given one, or else the
/// bee's own entity (a bee without a colony founds its own).
pub fn colony_of_new_bee(belong: Option<u64>, entity: u64) -> (colony: Option<u64>)
    ensures
        colony == (if belong is None { Some(entity) } else { belong }),
{
    if belong.is_none() {
        Some(entity)
    } else {
        belong
    }
}

/// A name drawn at random from `names`, as each new bee is named.
pub fn random_name(names: &[&str]) -> (name: String)
    requires
        names@.len() > 0,
    ensures
        exists|i: int| 0 <= i < names@.len() && name@ == names@[i]@,
{
    broadcast use vstd::string::group_string_axioms;
    let mut rng = thread_rng();
    let i = gen_below(&mut rng, names.len());
    let name = names[i].to_string();
    assert(name@ == names@[i as int]@);
    name
}

} // verus!
