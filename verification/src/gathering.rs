use vstd::prelude::*;
use crate::bee::BeeResourceGathering;
use crate::unit::{same_purpose, Purpose, UnitAction};

verus! {

/// What the world reports to a gathering bee.
#[derive(PartialEq, Eq, Structural, Clone, Copy, Debug)]
pub enum GatheringEvent {
    /// A new frame begins; `overloaded` says whether the bee's inventory is
    /// more than seven tenths full, by size or by weight.
    Tick { overloaded: bool },
    /// The best target among the resources the bee remembers, if any (by
    /// the target entity's bits).
    TargetChosen(Option<u64>),
    /// The bee, standing at its target, has looked at it: whether the kind of
    /// resource it gathers is used up there.
    TargetInspected { exhausted: bool },
    /// The bee has gathered: whether its inventory could not take it all.
    Gathered { inventory_full: bool },
    /// The bee has measured its distance to its target: whether it is near.
    DistanceMeasured { near: bool },
}

/// What a gathering bee asks the world to do next.
#[derive(PartialEq, Eq, Structural, Clone, Copy, Debug)]
pub enum GatheringRequest {
    /// Choose a target among the remembered resources; answer `TargetChosen`.
    ChooseTarget,
    /// Look at the target; answer `TargetInspected`.
    InspectTarget,
    /// Gather from the target once the gathering time is up; answer `Gathered`.
    Gather,
    /// Measure the distance to the target; answer `DistanceMeasured`.
    MeasureDistance,
    /// Start walking to the target.
    MoveToTarget,
    /// Nothing more on this frame.
    Idle,
}

/// The answer of a gathering bee to an event.
#[derive(PartialEq, Eq, Structural, Clone, Copy, Debug)]
pub struct GatheringResponse {
    /// The bee gives up its gathering behaviour.
    pub quit: bool,
    pub next: GatheringRequest,
}

/// One step of the gathering routine: the bee's plan, its gathering state
/// and its answer after `event`.
///
/// - On a new frame, a bee that means to relieve its desires gives up
///   gathering; an overloaded bee gives up gathering and sets out to store
///   its load; otherwise a bee without a target chooses one, a bee at its
///   target inspects it, a bee neither there nor walking measures its
///   distance, and a walking bee waits.
/// - A chosen target becomes the bee's target; with none, the bee gives up
///   gathering and patrols.
/// - At a used-up target the bee drops the target and forgets that it was
///   near or walking; at any other it gathers.
/// - When its inventory overflows, the bee gives up gathering and stores.
/// - A near bee is at its target; a distant one walks there.
pub open spec fn gathering_step(
    action: UnitAction,
    state: BeeResourceGathering,
    event: GatheringEvent,
) -> (UnitAction, BeeResourceGathering, GatheringResponse) {
    match event {
        GatheringEvent::Tick { overloaded } => {
            let relieve = action.purpose == Some(Purpose::RelieveDesire);
            if overloaded {
                (
                    UnitAction { purpose: Some(Purpose::ResourceStoraging), ..action },
                    state,
                    GatheringResponse { quit: true, next: GatheringRequest::Idle },
                )
            } else {
                let next = if action.target is None {
                    GatheringRequest::ChooseTarget
                } else if state.distance_ok {
                    GatheringRequest::InspectTarget
                } else if !state.is_moving {
                    GatheringRequest::MeasureDistance
                } else {
                    GatheringRequest::Idle
                };
                (action, state, GatheringResponse { quit: relieve, next })
            }
        },
        GatheringEvent::TargetChosen(choice) => match choice {
            Some(t) => (
                UnitAction { target: Some(t), ..action },
                state,
                GatheringResponse { quit: false, next: GatheringRequest::Idle },
            ),
            None => (
                UnitAction { purpose: Some(Purpose::Patrol), ..action },
                state,
                GatheringResponse { quit: true, next: GatheringRequest::Idle },
            ),
        },
        GatheringEvent::TargetInspected { exhausted } => {
            if exhausted {
                (
                    UnitAction { target: None, ..action },
                    BeeResourceGathering { distance_ok: false, is_moving: false, ..state },
                    GatheringResponse { quit: false, next: GatheringRequest::Idle },
                )
            } else {
                (action, state, GatheringResponse { quit: false, next: GatheringRequest::Gather })
            }
        },
        GatheringEvent::Gathered { inventory_full } => {
            if inventory_full {
                (
                    UnitAction { purpose: Some(Purpose::ResourceStoraging), ..action },
                    state,
                    GatheringResponse { quit: true, next: GatheringRequest::Idle },
                )
            } else {
                (action, state, GatheringResponse { quit: false, next: GatheringRequest::Idle })
            }
        },
        GatheringEvent::DistanceMeasured { near } => {
            if near {
                (
                    action,
                    BeeResourceGathering { distance_ok: true, ..state },
                    GatheringResponse { quit: false, next: GatheringRequest::Idle },
                )
            } else {
                (
                    action,
                    BeeResourceGathering { is_moving: true, ..state },
                    GatheringResponse { quit: false, next: GatheringRequest::MoveToTarget },
                )
            }
        },
    }
}

/// Runs one step of the gathering routine of a bee; see `gathering_step`.
pub fn gathering_respond(
    action: &mut UnitAction,
    state: &mut BeeResourceGathering,
    event: GatheringEvent,
) -> (response: GatheringResponse)
    ensures
        (*final(action), *final(state), response) == gathering_step(*old(action), *old(state), event),
{
    match event {
        GatheringEvent::Tick { overloaded } => {
            let relieve = same_purpose(&action.purpose, &Some(Purpose::RelieveDesire));
            if overloaded {
                action.purpose = Some(Purpose::ResourceStoraging);
                GatheringResponse { quit: true, next: GatheringRequest::Idle }
            } else {
                let next = if action.target.is_none() {
                    GatheringRequest::ChooseTarget
                } else if state.distance_ok {
                    GatheringRequest::InspectTarget
                } else if !state.is_moving {
                    GatheringRequest::MeasureDistance
                } else {
                    GatheringRequest::Idle
                };
                GatheringResponse { quit: relieve, next }
            }
        },
        GatheringEvent::TargetChosen(choice) => match choice {
            Some(t) => {
                action.target = Some(t);
                GatheringResponse { quit: false, next: GatheringRequest::Idle }
            },
            None => {
                action.purpose = Some(Purpose::Patrol);
                GatheringResponse { quit: true, next: GatheringRequest::Idle }
            },
        },
        GatheringEvent::TargetInspected { exhausted } => {
            if exhausted {
                state.distance_ok = false;
                state.is_moving = false;
                action.target = None;
                GatheringResponse { quit: false, next: GatheringRequest::Idle }
            } else {
                GatheringResponse { quit: false, next: GatheringRequest::Gather }
            }
        },
        GatheringEvent::Gathered { inventory_full } => {
            if inventory_full {
                action.purpose = Some(Purpose::ResourceStoraging);
                GatheringResponse { quit: true, next: GatheringRequest::Idle }
            } else {
                GatheringResponse { quit: false, next: GatheringRequest::Idle }
            }
        },
        GatheringEvent::DistanceMeasured { near } => {
            if near {
                state.distance_ok = true;
                GatheringResponse { quit: false, next: GatheringRequest::Idle }
            } else {
                state.is_moving = true;
                GatheringResponse { quit: false, next: GatheringRequest::MoveToTarget }
            }
        },
    }
}

/// An overloaded bee always gives up gathering and sets out to store its
/// load, whatever else holds.
pub proof fn lemma_overloaded_bee_stores(action: UnitAction, state: BeeResourceGathering)
    ensures
        ({
            let (a, s, r) = gathering_step(action, state, GatheringEvent::Tick { overloaded: true });
            &&& r.quit
            &&& a.purpose == Some(Purpose::ResourceStoraging)
            &&& a.target == action.target
            &&& s == state
        }),
{
}

/// A bee that finds its target used up looks for a new one on the next frame
/// (unless it is overloaded by then).
pub proof fn lemma_exhausted_target_is_replaced(action: UnitAction, state: BeeResourceGathering)
    ensures
        ({
            let (a, s, r) = gathering_step(action, state, GatheringEvent::TargetInspected { exhausted: true });
            let (a2, s2, r2) = gathering_step(a, s, GatheringEvent::Tick { overloaded: false });
            &&& !r.quit
            &&& a.target is None
            &&& r2.next == GatheringRequest::ChooseTarget
        }),
{
}

/// A bee that is near its target inspects the target on every later frame
/// (while it is not overloaded and keeps its target).
pub proof fn lemma_near_bee_inspects(action: UnitAction, state: BeeResourceGathering)
    requires
        action.target is Some,
    ensures
        ({
            let (a, s, r) = gathering_step(action, state, GatheringEvent::DistanceMeasured { near: true });
            let (a2, s2, r2) = gathering_step(a, s, GatheringEvent::Tick { overloaded: false });
            &&& r2.next == GatheringRequest::InspectTarget
            &&& (a2, s2) == (a, s)
        }),
{
}

/// A bee that has started walking to its target, and has not reached it,
/// only waits on later frames: it never measures its distance again.
pub proof fn lemma_walking_bee_waits(action: UnitAction, state: BeeResourceGathering)
    requires
        action.target is Some,
        !state.distance_ok,
    ensures
        ({
            let (a, s, r) = gathering_step(action, state, GatheringEvent::DistanceMeasured { near: false });
            let (a2, s2, r2) = gathering_step(a, s, GatheringEvent::Tick { overloaded: false });
            &&& r.next == GatheringRequest::MoveToTarget
            &&& r2.next == GatheringRequest::Idle
            &&& (a2, s2) == (a, s)
        }),
{
}

/// Gathering never changes the kind of resource a bee gathers.
pub proof fn lemma_gathering_keeps_kind(
    action: UnitAction,
    state: BeeResourceGathering,
    event: GatheringEvent,
)
    ensures
        gathering_step(action, state, event).1.id == state.id,
{
}

/// Choosing a target only sets the bee's target: its purpose, its gathering
/// state (whether it is near, whether it walks) and the kind it gathers stay
/// as they were, and it asks for nothing more on this frame. So a bee that was
/// neither near its new target nor walking measures its distance on the next
/// frame (unless it is overloaded or wants to relieve itself first).
pub proof fn lemma_choosing_target_sets_only_target(
    action: UnitAction,
    state: BeeResourceGathering,
    t: u64,
)
    ensures
        ({
            let (a, s, r) = gathering_step(action, state, GatheringEvent::TargetChosen(Some(t)));
            &&& a.target == Some(t)
            &&& a.purpose == action.purpose
            &&& a.purpose_is_end == action.purpose_is_end
            &&& s.id == state.id
            &&& s.distance_ok == state.distance_ok
            &&& s.is_moving == state.is_moving
            &&& !r.quit
            &&& r.next == GatheringRequest::Idle
        }),
        !state.distance_ok && !state.is_moving ==> ({
            let (a, s, r) = gathering_step(action, state, GatheringEvent::TargetChosen(Some(t)));
            let (a2, s2, r2) = gathering_step(a, s, GatheringEvent::Tick { overloaded: false });
            r2.next == GatheringRequest::MeasureDistance
        }),
{
}

/// A bee counts as near its target only after measuring that it is near:
/// no step sets `distance_ok` except a `DistanceMeasured { near: true }`
/// event, and no step sets `is_moving` except a `DistanceMeasured { near: false }`.
pub proof fn lemma_nearness_comes_only_from_measuring(
    action: UnitAction,
    state: BeeResourceGathering,
    event: GatheringEvent,
)
    ensures
        ({
            let s = gathering_step(action, state, event).1;
            &&& s.distance_ok && !state.distance_ok ==> event == GatheringEvent::DistanceMeasured { near: true }
            &&& s.is_moving && !state.is_moving ==> event == GatheringEvent::DistanceMeasured { near: false }
        }),
{
}

/// On a frame where the bee is not overloaded, it gives up its gathering
/// behaviour exactly when its purpose is to relieve its desires, whatever its
/// target and its gathering state; the frame changes neither its plan nor its
/// gathering state.
pub proof fn lemma_relieving_bee_quits(action: UnitAction, state: BeeResourceGathering)
    ensures
        ({
            let (a, s, r) = gathering_step(action, state, GatheringEvent::Tick { overloaded: false });
            &&& r.quit <==> action.purpose == Some(Purpose::RelieveDesire)
            &&& a == action
            &&& s == state
        }),
{
}

} // verus!
