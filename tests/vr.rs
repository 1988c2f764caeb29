use flight_vr::draw::ClipRect;
use flight_vr::vr::{
    eye_clips, primary, render_size, secondary, tertiary, ButtonMoment, Change, ControllerMoment,
    ControllerRef, DeviceMismatch, GamepadReport, PadChange, PadPoint, Pose, PoseDelta,
    SessionEvent, SessionFlags, ViveController, VrMoment,
};

fn bits(x: f64) -> u64 {
    x.to_bits()
}

fn moment(id: u32, pose: i32, axes: &[f64], buttons: &[bool]) -> ControllerMoment<i32> {
    ControllerMoment {
        id,
        name: format!("controller {}", id),
        pose,
        axes: axes.iter().map(|a| a.to_bits()).collect(),
        buttons: buttons.iter().map(|&p| ButtonMoment { pressed: p, touched: p }).collect(),
    }
}

fn report(id: u32, connected: bool) -> GamepadReport<i32> {
    GamepadReport { id, connected, moment: Some(moment(id, id as i32 * 10, &[0.0, 0.0, 0.0], &[false, false])) }
}

fn snapshot(gamepads: Vec<GamepadReport<i32>>) -> VrMoment<i32, ()> {
    VrMoment::assemble(SessionFlags::new(), Vec::new(), None, gamepads)
}

fn one_controller(axes: &[f64], buttons: &[bool], pose: i32) -> VrMoment<i32, ()> {
    snapshot(vec![GamepadReport { id: 4, connected: true, moment: Some(moment(4, pose, axes, buttons)) }])
}

#[test]
fn roles_follow_enumeration_order_of_connected_devices() {
    let m = snapshot(vec![report(7, false), report(3, true), report(9, true), report(1, true), report(5, true)]);
    assert_eq!(primary().index(&m), Some(3));
    assert_eq!(secondary().index(&m), Some(9));
    assert_eq!(tertiary().index(&m), Some(1));
    assert_eq!(ControllerRef::Indexed(5).index(&m), Some(5));
    assert_eq!(m.controller(ControllerRef::Indexed(5)).map(|c| c.id), Some(5));
    assert!(m.controller(ControllerRef::Indexed(7)).is_none());
    assert_eq!(m.controllers().len(), 4);
}

#[test]
fn same_connection_order_gives_same_roles() {
    let a = snapshot(vec![report(2, true), report(8, true)]);
    let b = snapshot(vec![report(2, true), report(6, false), report(8, true)]);
    for r in [primary(), secondary(), tertiary()] {
        assert_eq!(r.index(&a), r.index(&b));
    }
    assert_eq!(tertiary().index(&a), None);
}

#[test]
fn fixed_reference_survives_reordering() {
    let first = snapshot(vec![report(2, true), report(8, true)]);
    let pinned = secondary().fixed(&first);
    assert_eq!(pinned, ControllerRef::Indexed(8));
    let later = snapshot(vec![report(8, true), report(2, true)]);
    assert_eq!(pinned.index(&later), Some(8));
    assert_eq!(secondary().index(&later), Some(2));
    assert_eq!(later.controller(pinned).map(|c| c.pose), Some(80));
}

#[test]
fn fixing_an_unresolved_role_keeps_the_role() {
    let m = snapshot(vec![report(2, true)]);
    assert_eq!(tertiary().fixed(&m), ControllerRef::Tertiary);
    assert_eq!(ControllerRef::Indexed(11).fixed(&m), ControllerRef::Indexed(11));
}

#[test]
fn update_reads_axes_and_buttons() {
    let m = one_controller(&[0.5, -0.3, 0.8], &[true, false], 42);
    let mut c: ViveController<i32> = ViveController::new(primary());
    assert_eq!(c.update(&m), Ok(()));
    assert!(c.connected);
    assert_eq!(f64::from_bits(c.trigger), 0.8);
    assert!(c.menu);
    assert!(!c.grip);
    assert_eq!((f64::from_bits(c.pad.x), f64::from_bits(c.pad.y)), (0.5, -0.3));
    assert!(c.pad_touched);
    assert_eq!(c.pad_delta, PadChange::Zero);
    assert_eq!(c.pose, Pose::At(42));
    assert_eq!(c.pose_delta, PoseDelta { to: Pose::At(42), from: Pose::Origin });
    assert_eq!(c.trigger_delta, Change::Between { to: bits(0.8), from: 0 });
}

#[test]
fn second_update_records_changes() {
    let mut c: ViveController<i32> = ViveController::new(primary());
    c.update(&one_controller(&[0.5, -0.3, 0.8], &[true, false], 1)).unwrap();
    c.update(&one_controller(&[0.25, 0.5, 0.2], &[false, true], 2)).unwrap();
    assert_eq!(c.pose_delta, PoseDelta { to: Pose::At(2), from: Pose::At(1) });
    assert_eq!(
        c.pad_delta,
        PadChange::Between {
            to: PadPoint { x: bits(0.25), y: bits(0.5) },
            from: PadPoint { x: bits(0.5), y: bits(-0.3) }
        }
    );
    assert_eq!(c.trigger_delta, Change::Between { to: bits(0.2), from: bits(0.8) });
    assert!(!c.menu);
    assert!(c.grip);
}

#[test]
fn untouched_pad_gives_zero_pad_change() {
    let mut c: ViveController<i32> = ViveController::new(primary());
    assert!(!c.pad_touched);
    c.update(&one_controller(&[0.0, -0.0, 0.4], &[false, false], 3)).unwrap();
    assert!(!c.pad_touched);
    assert_eq!(c.pad_delta, PadChange::Zero);
    assert_eq!(c.pad, PadPoint { x: 0, y: 0 });
    c.update(&one_controller(&[0.0, 0.0, 0.4], &[false, false], 3)).unwrap();
    assert_eq!(c.pad_delta, PadChange::Zero);
}

#[test]
fn first_touch_gives_zero_pad_change() {
    let mut c: ViveController<i32> = ViveController::new(primary());
    c.update(&one_controller(&[0.0, 0.0, 0.0], &[false, false], 3)).unwrap();
    c.update(&one_controller(&[0.1, 0.0, 0.0], &[false, false], 3)).unwrap();
    assert!(c.pad_touched);
    assert_eq!(c.pad_delta, PadChange::Zero);
}

#[test]
fn absent_controller_releases_inputs_and_keeps_pose() {
    let mut c: ViveController<i32> = ViveController::new(primary());
    c.update(&one_controller(&[0.5, -0.3, 0.8], &[true, true], 9)).unwrap();
    let empty = snapshot(Vec::new());
    assert_eq!(c.update(&empty), Ok(()));
    assert!(!c.connected);
    assert_eq!(c.trigger, 0);
    assert!(!c.menu && !c.grip && !c.pad_touched);
    assert_eq!(c.pose, Pose::At(9));
    assert_eq!(c.trigger_delta, Change::Between { to: bits(0.8), from: 0 });
}

#[test]
fn short_controller_is_a_mismatch_and_changes_nothing() {
    let mut c: ViveController<i32> = ViveController::new(primary());
    c.update(&one_controller(&[0.5, -0.3, 0.8], &[true, false], 9)).unwrap();
    let before = c;
    let r = c.update(&one_controller(&[0.1, 0.2], &[true, true], 10));
    assert_eq!(r, Err(DeviceMismatch { axes: 2, buttons: 2 }));
    let r = c.update(&one_controller(&[0.1, 0.2, 0.3], &[true], 10));
    assert_eq!(r, Err(DeviceMismatch { axes: 3, buttons: 1 }));
    assert_eq!(c.pose, before.pose);
    assert_eq!(c.trigger, before.trigger);
    assert_eq!(c.pad, before.pad);
    assert_eq!(c.menu, before.menu);
}

#[test]
fn disconnected_gamepad_is_not_a_controller() {
    let m = snapshot(vec![report(3, false)]);
    assert_eq!(primary().index(&m), None);
    assert!(m.controllers().is_empty());
    let mut c: ViveController<i32> = ViveController::new(ControllerRef::Indexed(3));
    assert_eq!(c.update(&m), Ok(()));
    assert!(!c.connected);
}

#[test]
fn events_update_flags_and_list_new_controllers() {
    let mut flags = SessionFlags::new();
    let events = vec![
        SessionEvent::Pause,
        SessionEvent::GamepadConnected(4),
        SessionEvent::Other,
        SessionEvent::GamepadConnected(6),
    ];
    let new = flags.drain(&events);
    assert_eq!(new, vec![ControllerRef::Indexed(4), ControllerRef::Indexed(6)]);
    assert_eq!(flags, SessionFlags { exit: false, paused: true });
    let new = flags.drain(&vec![SessionEvent::Resume, SessionEvent::Exit]);
    assert!(new.is_empty());
    assert_eq!(flags, SessionFlags { exit: true, paused: false });
    let m: VrMoment<i32, &str> = VrMoment::assemble(flags, vec![ControllerRef::Indexed(4)], Some("hmd"), Vec::new());
    assert!(m.exit());
    assert!(!m.paused());
    assert_eq!(m.hmd(), Some(&"hmd"));
    assert_eq!(m.new_controllers(), &vec![ControllerRef::Indexed(4)]);
}

#[test]
fn stereo_geometry() {
    assert_eq!(render_size(1512, 1680, 1512, 1600), (3024, 1680));
    let t = eye_clips(1512, 1512, 1680);
    assert_eq!(t.left, ClipRect { x: 0, y: 0, w: 1512, h: 1680 });
    assert_eq!(t.right, ClipRect { x: 1512, y: 0, w: 1512, h: 1680 });
    let big = eye_clips(70000, 5, 65537);
    assert_eq!(big.left, ClipRect { x: 0, y: 0, w: 4464, h: 1 });
    assert_eq!(big.right.x, 4464);
}

#[test]
fn moment_reference_is_its_identity() {
    assert_eq!(moment(12, 0, &[], &[]).reference(), ControllerRef::Indexed(12));
}
