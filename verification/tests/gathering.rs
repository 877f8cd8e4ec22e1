use beehive::bee::BeeResourceGathering;
use beehive::gathering::{gathering_respond, GatheringEvent, GatheringRequest, GatheringResponse};
use beehive::unit::{Purpose, UnitAction};

fn bee(purpose: Purpose, target: Option<u64>) -> UnitAction {
    UnitAction { purpose: Some(purpose), target, purpose_is_end: Some(purpose) }
}

fn task(distance_ok: bool, is_moving: bool) -> BeeResourceGathering {
    BeeResourceGathering { id: 2, distance_ok, is_moving }
}

fn respond(quit: bool, next: GatheringRequest) -> GatheringResponse {
    GatheringResponse { quit, next }
}

#[test]
fn overloaded_bee_goes_storing() {
    let mut a = bee(Purpose::ResourceGathering(2), Some(5));
    let mut t = task(true, false);
    let r = gathering_respond(&mut a, &mut t, GatheringEvent::Tick { overloaded: true });
    assert_eq!(r, respond(true, GatheringRequest::Idle));
    assert_eq!(a.purpose, Some(Purpose::ResourceStoraging));
    assert_eq!(a.target, Some(5));
    assert_eq!(t, task(true, false));
}

#[test]
fn tick_asks_for_the_next_measurement() {
    let g = Purpose::ResourceGathering(2);
    let cases = [
        (None, task(true, true), GatheringRequest::ChooseTarget),
        (Some(1), task(true, true), GatheringRequest::InspectTarget),
        (Some(1), task(false, false), GatheringRequest::MeasureDistance),
        (Some(1), task(false, true), GatheringRequest::Idle),
    ];
    for (target, t0, next) in cases {
        let mut a = bee(g, target);
        let mut t = t0;
        let r = gathering_respond(&mut a, &mut t, GatheringEvent::Tick { overloaded: false });
        assert_eq!(r, respond(false, next));
        assert_eq!((a, t), (bee(g, target), t0));
    }
}

#[test]
fn bee_wanting_relief_quits_but_carries_on_this_frame() {
    let mut a = bee(Purpose::RelieveDesire, None);
    let mut t = task(false, false);
    let r = gathering_respond(&mut a, &mut t, GatheringEvent::Tick { overloaded: false });
    assert_eq!(r, respond(true, GatheringRequest::ChooseTarget));
}

#[test]
fn chosen_target_is_taken() {
    let mut a = bee(Purpose::ResourceGathering(0), None);
    let mut t = task(false, false);
    let r = gathering_respond(&mut a, &mut t, GatheringEvent::TargetChosen(Some(9)));
    assert_eq!(r, respond(false, GatheringRequest::Idle));
    assert_eq!(a.target, Some(9));
}

#[test]
fn no_target_means_patrol() {
    let mut a = bee(Purpose::ResourceGathering(0), None);
    let mut t = task(false, false);
    let r = gathering_respond(&mut a, &mut t, GatheringEvent::TargetChosen(None));
    assert_eq!(r, respond(true, GatheringRequest::Idle));
    assert_eq!(a.purpose, Some(Purpose::Patrol));
}

#[test]
fn exhausted_target_is_dropped_and_replaced() {
    let mut a = bee(Purpose::ResourceGathering(0), Some(3));
    let mut t = task(true, true);
    let r = gathering_respond(&mut a, &mut t, GatheringEvent::TargetInspected { exhausted: true });
    assert_eq!(r, respond(false, GatheringRequest::Idle));
    assert_eq!((a.target, t), (None, task(false, false)));
    let r = gathering_respond(&mut a, &mut t, GatheringEvent::Tick { overloaded: false });
    assert_eq!(r.next, GatheringRequest::ChooseTarget);
}

#[test]
fn live_target_is_gathered() {
    let mut a = bee(Purpose::ResourceGathering(0), Some(3));
    let mut t = task(true, false);
    let r = gathering_respond(&mut a, &mut t, GatheringEvent::TargetInspected { exhausted: false });
    assert_eq!(r, respond(false, GatheringRequest::Gather));
}

#[test]
fn full_inventory_goes_storing() {
    let mut a = bee(Purpose::ResourceGathering(0), Some(3));
    let mut t = task(true, false);
    let r = gathering_respond(&mut a, &mut t, GatheringEvent::Gathered { inventory_full: true });
    assert_eq!(r, respond(true, GatheringRequest::Idle));
    assert_eq!(a.purpose, Some(Purpose::ResourceStoraging));
    let mut a = bee(Purpose::ResourceGathering(0), Some(3));
    let r = gathering_respond(&mut a, &mut t, GatheringEvent::Gathered { inventory_full: false });
    assert_eq!(r, respond(false, GatheringRequest::Idle));
    assert_eq!(a, bee(Purpose::ResourceGathering(0), Some(3)));
}

#[test]
fn near_bee_inspects_and_far_bee_walks() {
    let mut a = bee(Purpose::ResourceGathering(0), Some(3));
    let mut t = task(false, false);
    let r = gathering_respond(&mut a, &mut t, GatheringEvent::DistanceMeasured { near: true });
    assert_eq!((r, t), (respond(false, GatheringRequest::Idle), task(true, false)));
    let r = gathering_respond(&mut a, &mut t, GatheringEvent::Tick { overloaded: false });
    assert_eq!(r.next, GatheringRequest::InspectTarget);

    let mut t = task(false, false);
    let r = gathering_respond(&mut a, &mut t, GatheringEvent::DistanceMeasured { near: false });
    assert_eq!((r, t), (respond(false, GatheringRequest::MoveToTarget), task(false, true)));
    let r = gathering_respond(&mut a, &mut t, GatheringEvent::Tick { overloaded: false });
    assert_eq!(r.next, GatheringRequest::Idle);
}
