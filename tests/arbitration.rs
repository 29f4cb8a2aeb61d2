use molecules::{
    grab_trigger_key, id_set_difference, id_set_from, interact_trigger_key, new_id_set,
    BaseInputAction, ContentParent, Grabbable, HoverPlane, InputKind, InputSource, LineTarget,
    NodeOp, SingleActorAction,
};

fn sorted(s: &molecules::IdSet) -> Vec<u64> {
    let mut v: Vec<u64> = s.iter().copied().collect();
    v.sort();
    v
}

#[test]
fn condition_action_tracks_edges() {
    let mut a = BaseInputAction::new(false);
    assert!(a.currently_acting().is_empty());
    a.update(&vec![1, 2]);
    assert_eq!(sorted(a.currently_acting()), vec![1, 2]);
    assert_eq!(sorted(a.started_acting()), vec![1, 2]);
    assert!(a.stopped_acting().is_empty());
    a.update(&vec![2, 3]);
    assert_eq!(sorted(a.currently_acting()), vec![2, 3]);
    assert_eq!(sorted(a.started_acting()), vec![3]);
    assert_eq!(sorted(a.stopped_acting()), vec![1]);
    a.update(&vec![]);
    assert!(a.currently_acting().is_empty());
    assert!(a.started_acting().is_empty());
    assert_eq!(sorted(a.stopped_acting()), vec![2, 3]);
}

#[test]
fn condition_action_sets_stay_consistent() {
    let frames: Vec<Vec<u64>> = vec![vec![4], vec![4, 5, 6], vec![6], vec![5, 7], vec![], vec![7]];
    let mut a = BaseInputAction::new(true);
    for f in &frames {
        a.update(f);
        for s in a.started_acting() {
            assert!(a.currently_acting().contains(s));
        }
        for s in a.stopped_acting() {
            assert!(!a.currently_acting().contains(s));
        }
    }
    assert!(a.capture_on_trigger());
}

#[test]
fn duplicate_handles_count_once() {
    let mut a = BaseInputAction::new(false);
    a.update(&vec![9, 9, 9]);
    assert_eq!(sorted(a.currently_acting()), vec![9]);
}

#[test]
fn id_set_operations() {
    let a = id_set_from(&vec![1, 2, 3, 3]);
    let b = id_set_from(&vec![2, 5]);
    assert_eq!(sorted(&a), vec![1, 2, 3]);
    assert_eq!(sorted(&id_set_difference(&a, &b)), vec![1, 3]);
    assert_eq!(sorted(&id_set_difference(&b, &a)), vec![5]);
    assert!(new_id_set().is_empty());
}

fn frame(sel: &mut SingleActorAction, eligible: Vec<u64>, gate: Option<&BaseInputAction>) {
    sel.base_mut().update(&eligible);
    sel.update(gate);
}

fn edges(sel: &SingleActorAction) -> (bool, bool, bool, bool) {
    (sel.actor_started(), sel.actor_changed(), sel.actor_acting(), sel.actor_stopped())
}

#[test]
fn single_actor_edges_without_gate() {
    let mut sel = SingleActorAction::new(false, true);
    assert_eq!(sel.actor(), None);
    frame(&mut sel, vec![], None);
    assert_eq!(edges(&sel), (false, false, false, false));
    frame(&mut sel, vec![1], None);
    assert_eq!(sel.actor(), Some(1));
    assert_eq!(edges(&sel), (true, false, true, false));
    frame(&mut sel, vec![1], None);
    assert_eq!(sel.actor(), Some(1));
    assert_eq!(edges(&sel), (false, false, true, false));
    frame(&mut sel, vec![1, 2], None);
    assert_eq!(sel.actor(), Some(2));
    assert_eq!(edges(&sel), (false, true, true, false));
    frame(&mut sel, vec![1], None);
    assert_eq!(sel.actor(), None);
    assert_eq!(edges(&sel), (false, false, false, true));
    frame(&mut sel, vec![1], None);
    assert_eq!(sel.actor(), None);
    assert_eq!(edges(&sel), (false, false, false, false));
}

#[test]
fn capture_follows_own_flag_without_gate() {
    let mut sel = SingleActorAction::new(true, false);
    assert!(!sel.base().capture_on_trigger());
    frame(&mut sel, vec![], None);
    assert!(sel.base().capture_on_trigger());
    let mut off = SingleActorAction::new(false, false);
    frame(&mut off, vec![3], None);
    assert!(!off.base().capture_on_trigger());
}

#[test]
fn gate_reached_in_same_frame_cannot_claim() {
    let mut gate = BaseInputAction::new(false);
    let mut sel = SingleActorAction::new(true, false);
    gate.update(&vec![1]);
    frame(&mut sel, vec![1], Some(&gate));
    assert_eq!(sel.actor(), None);
    assert!(!sel.actor_started());
    assert!(!sel.base().capture_on_trigger());
    gate.update(&vec![1]);
    frame(&mut sel, vec![1], Some(&gate));
    assert_eq!(sel.actor(), None);
}

#[test]
fn gate_passed_before_lets_press_claim() {
    let mut gate = BaseInputAction::new(false);
    let mut sel = SingleActorAction::new(true, false);
    gate.update(&vec![1]);
    frame(&mut sel, vec![], Some(&gate));
    gate.update(&vec![1]);
    frame(&mut sel, vec![1], Some(&gate));
    assert_eq!(sel.actor(), Some(1));
    assert!(sel.actor_started());
    assert!(sel.base().capture_on_trigger());
    gate.update(&vec![1]);
    frame(&mut sel, vec![1], Some(&gate));
    assert!(!sel.actor_started());
    assert!(sel.actor_acting());
    assert!(!sel.base().capture_on_trigger());
}

#[test]
fn sticky_actor_is_not_replaced() {
    let mut gate = BaseInputAction::new(false);
    let mut sel = SingleActorAction::new(true, false);
    gate.update(&vec![1, 2]);
    frame(&mut sel, vec![], Some(&gate));
    gate.update(&vec![1, 2]);
    frame(&mut sel, vec![1], Some(&gate));
    assert_eq!(sel.actor(), Some(1));
    gate.update(&vec![1, 2]);
    frame(&mut sel, vec![1, 2], Some(&gate));
    assert_eq!(sel.actor(), Some(1));
    assert!(!sel.actor_changed());
    gate.update(&vec![1, 2]);
    frame(&mut sel, vec![2], Some(&gate));
    assert_eq!(sel.actor(), None);
    assert!(sel.actor_stopped());
}

#[test]
fn changing_actor_takes_over() {
    let mut gate = BaseInputAction::new(false);
    let mut sel = SingleActorAction::new(false, true);
    gate.update(&vec![1, 2]);
    frame(&mut sel, vec![], Some(&gate));
    gate.update(&vec![1, 2]);
    frame(&mut sel, vec![1], Some(&gate));
    gate.update(&vec![1, 2]);
    frame(&mut sel, vec![1, 2], Some(&gate));
    assert_eq!(sel.actor(), Some(2));
    assert!(sel.actor_changed());
    assert!(!sel.actor_started());
}

#[test]
fn grab_round_trip_restores_parent() {
    let mut g = Grabbable::new();
    assert_eq!(g.content_parent(), ContentParent::InputFrame);
    assert!(g.zoneable());
    let ops = g.update(&vec![5], &vec![5], &vec![]);
    assert!(ops.is_empty());
    let ops = g.update(&vec![5], &vec![5], &vec![5]);
    assert_eq!(
        ops,
        vec![
            NodeOp::FollowActor(5),
            NodeOp::SetZoneable(false),
            NodeOp::ReparentInPlace(ContentParent::Root)
        ]
    );
    assert_eq!(g.content_parent(), ContentParent::Root);
    assert!(!g.zoneable());
    let ops = g.update(&vec![5], &vec![], &vec![5]);
    assert_eq!(ops, vec![NodeOp::FollowActor(5)]);
    assert!(g.grab_action().actor_acting());
    let ops = g.update(&vec![5], &vec![], &vec![]);
    assert_eq!(
        ops,
        vec![
            NodeOp::ReparentInPlace(ContentParent::InputFrame),
            NodeOp::SetZoneable(true)
        ]
    );
    assert_eq!(g.content_parent(), ContentParent::InputFrame);
    assert!(g.zoneable());
    assert_eq!(sorted(g.global_action().currently_acting()), vec![5]);
}

#[test]
fn grab_is_not_taken_over() {
    let mut g = Grabbable::new();
    g.update(&vec![1, 2], &vec![1, 2], &vec![]);
    g.update(&vec![1, 2], &vec![1, 2], &vec![1]);
    assert_eq!(g.grab_action().actor(), Some(1));
    let ops = g.update(&vec![1, 2], &vec![1, 2], &vec![1, 2]);
    assert_eq!(ops, vec![NodeOp::FollowActor(1)]);
    assert_eq!(g.grab_action().actor(), Some(1));
}

#[test]
fn grab_needs_reach_first() {
    let mut g = Grabbable::new();
    let ops = g.update(&vec![1], &vec![1], &vec![1]);
    assert!(ops.is_empty());
    assert_eq!(g.grab_action().actor(), None);
}

#[test]
fn interact_edge_scenario() {
    let mut plane = HoverPlane::new();
    // first frame: the hand hovers, pinch strength 0.80 is below the press threshold
    plane.update(&vec![1], &vec![]);
    assert!(!plane.interact_status().actor_started());
    // second frame: pinch strength 0.95
    plane.update(&vec![1], &vec![1]);
    assert!(plane.interact_status().actor_started());
    assert_eq!(plane.interact_status().actor(), Some(1));
}

#[test]
fn line_targets_skip_pointers_and_mark_the_actor() {
    let mut plane = HoverPlane::new();
    plane.update(&vec![1, 2, 3], &vec![]);
    plane.update(&vec![1, 2, 3], &vec![3]);
    assert_eq!(plane.interact_status().actor(), Some(3));
    let sources = vec![
        InputSource { id: 1, kind: InputKind::Pointer },
        InputSource { id: 2, kind: InputKind::Hand },
        InputSource { id: 3, kind: InputKind::Tip },
        InputSource { id: 4, kind: InputKind::Hand },
    ];
    assert_eq!(
        plane.line_targets(&sources),
        vec![
            LineTarget { id: 2, interacting: false },
            LineTarget { id: 3, interacting: true }
        ]
    );
    plane.update(&vec![2], &vec![3]);
    assert_eq!(
        plane.line_targets(&sources),
        vec![
            LineTarget { id: 2, interacting: false },
            LineTarget { id: 3, interacting: true }
        ]
    );
    assert_eq!(sorted(plane.hovering_inputs()), vec![2]);
}

#[test]
fn trigger_keys_by_capability() {
    assert_eq!(grab_trigger_key(InputKind::Hand), "pinch_strength");
    assert_eq!(grab_trigger_key(InputKind::Pointer), "grab");
    assert_eq!(grab_trigger_key(InputKind::Tip), "grab");
    assert_eq!(interact_trigger_key(InputKind::Hand), "pinch_strength");
    assert_eq!(interact_trigger_key(InputKind::Pointer), "select");
    assert_eq!(interact_trigger_key(InputKind::Tip), "select");
}
