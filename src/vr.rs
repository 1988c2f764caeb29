//! Frame snapshots of the VR hardware, controller roles, and delta-following
//! controller state.
//!
//! Floating-point readings of the runtime are carried as the bit patterns of
//! their IEEE-754 binary64 values (`u64`): this module only copies them and
//! tests them for zero, which it can do exactly on the bits. Differences
//! between readings are recorded as the pair of readings they are taken
//! between, for the caller to evaluate in floating point. Poses are values
//! of a type `P` that this module never looks into.

use vstd::prelude::*;
use crate::idmap::{IdMap, id_map_new, id_map_insert, id_map_get, id_map_keys};
use crate::draw::{ClipRect, StereoTarget};

verus! {

/// A persistent way to name a controller: by the role that the runtime's
/// enumeration order gives it in each frame, or by its device identity.
/// A role may name a different device in each frame; an identity never does.
#[derive(Clone, Copy, Debug, PartialEq, Eq, Structural)]
pub enum ControllerRef {
    Primary,
    Secondary,
    Tertiary,
    Indexed(u32),
}

/// A reference to the primary controller.
pub fn primary() -> (r: ControllerRef)
    ensures
        r == ControllerRef::Primary,
{
    ControllerRef::Primary
}

/// A reference to the secondary controller.
pub fn secondary() -> (r: ControllerRef)
    ensures
        r == ControllerRef::Secondary,
{
    ControllerRef::Secondary
}

/// A reference to the tertiary controller.
pub fn tertiary() -> (r: ControllerRef)
    ensures
        r == ControllerRef::Tertiary,
{
    ControllerRef::Tertiary
}

/// The state of one controller button.
#[derive(Clone, Copy, Debug, PartialEq, Eq, Structural)]
pub struct ButtonMoment {
    pub pressed: bool,
    pub touched: bool,
}

/// What one controller reported during one frame.
pub struct ControllerMoment<P> {
    /// The device identity.
    pub id: u32,
    /// The textual name of the controller.
    pub name: String,
    /// The location and orientation of the controller.
    pub pose: P,
    /// The analog inputs, each as the bits of a binary64 value.
    pub axes: Vec<u64>,
    /// The buttons.
    pub buttons: Vec<ButtonMoment>,
}

impl<P> ControllerMoment<P> {
    /// A reference to this particular device, whatever role it has.
    pub fn reference(&self) -> (r: ControllerRef)
        ensures
            r == ControllerRef::Indexed(self.id),
    {
        ControllerRef::Indexed(self.id)
    }
}

/// One entry of the runtime's gamepad enumeration, in the runtime's order.
pub struct GamepadReport<P> {
    pub id: u32,
    pub connected: bool,
    /// What the gamepad reported, when it reported a full pose.
    pub moment: Option<ControllerMoment<P>>,
}

/// The identities of the connected gamepads, in enumeration order.
pub open spec fn connected_ids<P>(gps: Seq<GamepadReport<P>>) -> Seq<u32>
    decreases gps.len(),
{
    if gps.len() == 0 {
        Seq::empty()
    } else {
        let rest = connected_ids(gps.drop_last());
        if gps.last().connected {
            rest.push(gps.last().id)
        } else {
            rest
        }
    }
}

/// The identity in role slot `k` (0 primary, 1 secondary, 2 tertiary).
pub open spec fn role_slot(ids: Seq<u32>, k: int) -> Option<u32> {
    if 0 <= k < ids.len() {
        Some(ids[k])
    } else {
        None
    }
}

/// The controllers a snapshot holds: each connected gamepad that reported
/// a full moment, under the moment's identity (a later one replacing an
/// earlier one of the same identity).
pub open spec fn moments_map<P>(gps: Seq<GamepadReport<P>>) -> Map<u32, ControllerMoment<P>>
    decreases gps.len(),
{
    if gps.len() == 0 {
        Map::empty()
    } else {
        let rest = moments_map(gps.drop_last());
        let g = gps.last();
        match g.moment {
            Some(c) => if g.connected {
                rest.insert(c.id, c)
            } else {
                rest
            },
            None => rest,
        }
    }
}

/// A discrete event of the hardware runtime, as far as a session cares.
#[derive(Clone, Copy, Debug, PartialEq, Eq, Structural)]
pub enum SessionEvent {
    Pause,
    Resume,
    Exit,
    GamepadConnected(u32),
    Other,
}

/// The persistent flags of a session.
#[derive(Clone, Copy, Debug, PartialEq, Eq, Structural)]
pub struct SessionFlags {
    /// The runtime asked the application to exit.
    pub exit: bool,
    /// The runtime asked the application to pause movement.
    pub paused: bool,
}

/// The flags after one event.
pub open spec fn apply_event(f: SessionFlags, e: SessionEvent) -> SessionFlags {
    match e {
        SessionEvent::Pause => SessionFlags { paused: true, ..f },
        SessionEvent::Resume => SessionFlags { paused: false, ..f },
        SessionEvent::Exit => SessionFlags { exit: true, ..f },
        _ => f,
    }
}

/// The flags after a sequence of events, applied in order.
pub open spec fn apply_events(f: SessionFlags, es: Seq<SessionEvent>) -> SessionFlags
    decreases es.len(),
{
    if es.len() == 0 {
        f
    } else {
        apply_event(apply_events(f, es.drop_last()), es.last())
    }
}

/// References to the gamepads that connected during a sequence of events.
pub open spec fn connected_refs(es: Seq<SessionEvent>) -> Seq<ControllerRef>
    decreases es.len(),
{
    if es.len() == 0 {
        Seq::empty()
    } else {
        let rest = connected_refs(es.drop_last());
        match es.last() {
            SessionEvent::GamepadConnected(id) => rest.push(ControllerRef::Indexed(id)),
            _ => rest,
        }
    }
}

impl SessionFlags {
    /// The flags of a fresh session: neither exiting nor paused.
    pub fn new() -> (r: SessionFlags)
        ensures
            !r.exit && !r.paused,
    {
        SessionFlags { exit: false, paused: false }
    }

    /// Applies the events drained from the runtime in one synchronization,
    /// in order, and returns references to the gamepads that connected.
    pub fn drain(&mut self, events: &Vec<SessionEvent>) -> (r: Vec<ControllerRef>)
        ensures
            *final(self) == apply_events(*old(self), events@),
            r@ == connected_refs(events@),
    {
        let mut r: Vec<ControllerRef> = Vec::new();
        let mut i: usize = 0;
        while i < events.len()
            invariant
                i <= events@.len(),
                *self == apply_events(*old(self), events@.take(i as int)),
                r@ == connected_refs(events@.take(i as int)),
            decreases events.len() - i,
        {
            let e = events[i];
            match e {
                SessionEvent::Pause => self.paused = true,
                SessionEvent::Resume => self.paused = false,
                SessionEvent::Exit => self.exit = true,
                SessionEvent::GamepadConnected(id) => r.push(ControllerRef::Indexed(id)),
                SessionEvent::Other => {},
            }
            proof {
                let t = events@.take(i + 1);
                assert(t.drop_last() =~= events@.take(i as int));
                assert(t.last() == e);
            }
            i = i + 1;
        }
        assert(events@.take(i as int) =~= events@);
        r
    }
}

/// The size of the shared render target: both eyes side by side.
pub fn render_size(left_width: u32, left_height: u32, right_width: u32, right_height: u32) -> (r: (
    u32,
    u32,
))
    requires
        left_width + right_width <= u32::MAX,
    ensures
        r.0 == left_width + right_width,
        r.1 == if left_height >= right_height {
            left_height
        } else {
            right_height
        },
{
    let h = if left_height >= right_height {
        left_height
    } else {
        right_height
    };
    (left_width + right_width, h)
}

/// The low 16 bits of a bound, which is what a device rectangle holds.
pub open spec fn low16(v: u32) -> u16 {
    (v % 0x10000) as u16
}

/// The rectangles of the two eyes in a shared target of height `height`: the
/// left eye at the left edge, the right eye just after it. Each bound is
/// kept to its low 16 bits, as the device's rectangles hold.
pub fn eye_clips(left_width: u32, right_width: u32, height: u32) -> (r: StereoTarget)
    ensures
        r.left == (ClipRect { x: 0, y: 0, w: low16(left_width), h: low16(height) }),
        r.right == (ClipRect { x: low16(left_width), y: 0, w: low16(right_width), h: low16(height) }),
{
    let lw = (left_width % 0x10000) as u16;
    let rw = (right_width % 0x10000) as u16;
    let h = (height % 0x10000) as u16;
    StereoTarget { left: ClipRect { x: 0, y: 0, w: lw, h }, right: ClipRect { x: lw, y: 0, w: rw, h } }
}

/// What a snapshot says, as mathematical values.
pub struct MomentView<P, H> {
    pub controllers: Map<u32, ControllerMoment<P>>,
    pub hmd: Option<H>,
    pub primary: Option<u32>,
    pub secondary: Option<u32>,
    pub tertiary: Option<u32>,
    pub exit: bool,
    pub paused: bool,
    pub new_controllers: Seq<ControllerRef>,
}

/// Everything the hardware reported for one frame: the connected controllers
/// keyed by identity, the head-mounted display (of type `H`) if connected, the
/// role assignment of this frame, and the session flags.
pub struct VrMoment<P, H> {
    cont: IdMap<ControllerMoment<P>>,
    hmd: Option<H>,
    primary: Option<u32>,
    secondary: Option<u32>,
    tertiary: Option<u32>,
    exit: bool,
    paused: bool,
    new_controllers: Vec<ControllerRef>,
}

impl<P, H> VrMoment<P, H> {
    /// Each controller is filed under its own identity.
    #[verifier::type_invariant]
    closed spec fn keyed_by_identity(&self) -> bool {
        forall|k: u32| self.cont@.contains_key(k) ==> #[trigger] self.cont@[k].id == k
    }
}

/// Each moment of `moments_map` is filed under its own identity.
proof fn lemma_moments_keyed<P>(gps: Seq<GamepadReport<P>>)
    ensures
        forall|k: u32| moments_map(gps).contains_key(k) ==> #[trigger] moments_map(gps)[k].id == k,
    decreases gps.len(),
{
    if gps.len() > 0 {
        let rest = moments_map(gps.drop_last());
        lemma_moments_keyed(gps.drop_last());
        assert forall|k: u32| moments_map(gps).contains_key(k) implies #[trigger] moments_map(
            gps,
        )[k].id == k by {
            if rest.contains_key(k) {
                assert(rest[k].id == k);
            }
        }
    }
}

impl<P, H> View for VrMoment<P, H> {
    type V = MomentView<P, H>;

    closed spec fn view(&self) -> MomentView<P, H> {
        MomentView {
            controllers: self.cont@,
            hmd: self.hmd,
            primary: self.primary,
            secondary: self.secondary,
            tertiary: self.tertiary,
            exit: self.exit,
            paused: self.paused,
            new_controllers: self.new_controllers@,
        }
    }
}

impl ControllerRef {
    /// The identity this reference names in a snapshot, if any.
    pub open spec fn resolve<P, H>(self, m: MomentView<P, H>) -> Option<u32> {
        match self {
            ControllerRef::Primary => m.primary,
            ControllerRef::Secondary => m.secondary,
            ControllerRef::Tertiary => m.tertiary,
            ControllerRef::Indexed(i) => Some(i),
        }
    }

    /// The identity of the controller this reference names in `moment`, if any.
    pub fn index<P, H>(&self, moment: &VrMoment<P, H>) -> (r: Option<u32>)
        ensures
            r == self.resolve(moment@),
    {
        match *self {
            ControllerRef::Primary => moment.primary,
            ControllerRef::Secondary => moment.secondary,
            ControllerRef::Tertiary => moment.tertiary,
            ControllerRef::Indexed(i) => Some(i),
        }
    }

    /// Pins this reference to the device it names in `moment`; a role that
    /// names no device there is returned unchanged, so it can be pinned later.
    pub fn fixed<P, H>(&self, moment: &VrMoment<P, H>) -> (r: ControllerRef)
        ensures
            r == fixed_ref(*self, moment@),
    {
        match self.index(moment) {
            Some(i) => ControllerRef::Indexed(i),
            None => *self,
        }
    }
}

/// The reference that `fixed` returns.
pub open spec fn fixed_ref<P, H>(r: ControllerRef, m: MomentView<P, H>) -> ControllerRef {
    match r.resolve(m) {
        Some(i) => ControllerRef::Indexed(i),
        None => r,
    }
}

/// The roles of `m` are those that the enumeration `gps` assigns.
pub open spec fn roles_follow<P, H>(m: MomentView<P, H>, gps: Seq<GamepadReport<P>>) -> bool {
    &&& m.primary == role_slot(connected_ids(gps), 0)
    &&& m.secondary == role_slot(connected_ids(gps), 1)
    &&& m.tertiary == role_slot(connected_ids(gps), 2)
}

/// Role assignment depends only on which devices are connected and in what
/// order the runtime lists them: two snapshots whose enumerations list the
/// same connected devices in the same order resolve every reference to the
/// same device.
pub proof fn lemma_roles_stable<P, H>(
    m1: MomentView<P, H>,
    m2: MomentView<P, H>,
    g1: Seq<GamepadReport<P>>,
    g2: Seq<GamepadReport<P>>,
    r: ControllerRef,
)
    requires
        roles_follow(m1, g1),
        roles_follow(m2, g2),
        connected_ids(g1) == connected_ids(g2),
    ensures
        r.resolve(m1) == r.resolve(m2),
{
}

/// Pinning a reference that resolves in one snapshot gives an identity
/// reference that names that same device in every snapshot, whatever roles
/// the later ones assign.
pub proof fn lemma_fixed_keeps_device<P, H>(r: ControllerRef, m1: MomentView<P, H>, m2: MomentView<P, H>)
    requires
        r.resolve(m1) is Some,
    ensures
        fixed_ref(r, m1) == ControllerRef::Indexed(r.resolve(m1).unwrap()),
        fixed_ref(r, m1).resolve(m2) == r.resolve(m1),
{
}

/// The moment of the controller that `r` names in `m`, if it is connected.
pub open spec fn moment_for<P, H>(r: ControllerRef, m: MomentView<P, H>) -> Option<ControllerMoment<P>> {
    match r.resolve(m) {
        Some(i) => if m.controllers.contains_key(i) {
            Some(m.controllers[i])
        } else {
            None
        },
        None => None,
    }
}

impl<P, H> VrMoment<P, H> {
    /// Packages one synchronization: the session flags after this frame's
    /// events, the gamepads that connected during it, the display if
    /// connected, and the gamepad enumeration in the runtime's order. The
    /// first three connected gamepads become primary, secondary and tertiary.
    pub fn assemble(
        flags: SessionFlags,
        new_controllers: Vec<ControllerRef>,
        hmd: Option<H>,
        gamepads: Vec<GamepadReport<P>>,
    ) -> (m: VrMoment<P, H>)
        ensures
            m@ == (MomentView {
                controllers: moments_map(gamepads@),
                hmd: hmd,
                primary: role_slot(connected_ids(gamepads@), 0),
                secondary: role_slot(connected_ids(gamepads@), 1),
                tertiary: role_slot(connected_ids(gamepads@), 2),
                exit: flags.exit,
                paused: flags.paused,
                new_controllers: new_controllers@,
            }),
    {
        let ghost gps = gamepads@;
        let mut ids: Vec<u32> = Vec::new();
        let mut i: usize = 0;
        while i < gamepads.len()
            invariant
                i <= gamepads@.len(),
                gps == gamepads@,
                ids@ == connected_ids(gps.take(i as int)),
            decreases gamepads.len() - i,
        {
            if gamepads[i].connected {
                ids.push(gamepads[i].id);
            }
            proof {
                let t = gps.take(i + 1);
                assert(t.drop_last() =~= gps.take(i as int));
                assert(t.last() == gps[i as int]);
            }
            i = i + 1;
        }
        assert(gps.take(i as int) =~= gps);
        let primary = if ids.len() > 0 { Some(ids[0]) } else { None };
        let secondary = if ids.len() > 1 { Some(ids[1]) } else { None };
        let tertiary = if ids.len() > 2 { Some(ids[2]) } else { None };

        let mut cont: IdMap<ControllerMoment<P>> = id_map_new();
        for g in it: gamepads.into_iter()
            invariant
                it.seq() == gps,
                cont@ == moments_map(gps.take(it.index() as int)),
        {
            proof {
                let t = gps.take(it.index() + 1);
                assert(t.drop_last() =~= gps.take(it.index() as int));
            }
            if g.connected {
                match g.moment {
                    Some(c) => {
                        let id = c.id;
                        id_map_insert(&mut cont, id, c);
                    },
                    None => {},
                }
            }
        }
        assert(gps.take(gps.len() as int) =~= gps);
        proof {
            lemma_moments_keyed(gps);
        }
        VrMoment {
            cont,
            hmd,
            primary,
            secondary,
            tertiary,
            exit: flags.exit,
            paused: flags.paused,
            new_controllers,
        }
    }

    /// The controller that `role` names, if it is connected.
    pub fn controller(&self, role: ControllerRef) -> (r: Option<&ControllerMoment<P>>)
        ensures
            match r {
                Some(c) => moment_for(role, self@) == Some(*c),
                None => moment_for(role, self@) is None,
            },
    {
        match role.index(self) {
            Some(i) => id_map_get(&self.cont, i),
            None => None,
        }
    }

    /// Every connected controller once, in no particular order.
    pub fn controllers(&self) -> (r: Vec<&ControllerMoment<P>>)
        ensures
            r@.len() == self@.controllers.dom().len(),
            forall|k: int|
                0 <= k < r@.len() ==> self@.controllers.contains_key(#[trigger] r@[k].id)
                    && self@.controllers[r@[k].id] == *r@[k],
            forall|id: u32|
                self@.controllers.contains_key(id) ==> exists|k: int|
                    0 <= k < r@.len() && #[trigger] r@[k].id == id,
    {
        proof {
            use_type_invariant(self);
        }
        let keys = id_map_keys(&self.cont);
        let mut r: Vec<&ControllerMoment<P>> = Vec::new();
        let mut i: usize = 0;
        while i < keys.len()
            invariant
                i <= keys@.len(),
                keys@.to_set() == self@.controllers.dom(),
                keys@.no_duplicates(),
                forall|k: u32| self@.controllers.contains_key(k) ==> #[trigger] self@.controllers[k].id == k,
                r@.len() == i,
                forall|k: int| 0 <= k < i ==> (#[trigger] r@[k]).id == keys@[k]
                    && self@.controllers.contains_key(keys@[k])
                    && self@.controllers[keys@[k]] == *r@[k],
            decreases keys.len() - i,
        {
            match id_map_get(&self.cont, keys[i]) {
                Some(c) => r.push(c),
                None => {
                    assert(keys@.to_set().contains(keys@[i as int]));
                },
            }
            i = i + 1;
        }
        proof {
            keys@.unique_seq_to_set();
            assert forall|id: u32| self@.controllers.contains_key(id) implies exists|k: int|
                0 <= k < r@.len() && #[trigger] r@[k].id == id by {
                assert(keys@.to_set().contains(id));
                let k = choose|k: int| 0 <= k < keys@.len() && keys@[k] == id;
                assert(r@[k].id == id);
            }
        }
        r
    }

    /// The head-mounted display, if it is connected.
    pub fn hmd(&self) -> (r: Option<&H>)
        ensures
            match r {
                Some(h) => self@.hmd == Some(*h),
                None => self@.hmd is None,
            },
    {
        self.hmd.as_ref()
    }

    /// Has the runtime asked the application to exit?
    pub fn exit(&self) -> (r: bool)
        ensures
            r == self@.exit,
    {
        self.exit
    }

    /// Has the runtime asked the application to pause movement?
    pub fn paused(&self) -> (r: bool)
        ensures
            r == self@.paused,
    {
        self.paused
    }

    /// References to the gamepads that connected since the previous snapshot.
    pub fn new_controllers(&self) -> (r: &Vec<ControllerRef>)
        ensures
            r@ == self@.new_controllers,
    {
        &self.new_controllers
    }
}

/// A pose as a tracker knows it: the origin (identity) before any report,
/// or a reported pose.
#[derive(Clone, Copy, Debug, PartialEq, Eq)]
pub enum Pose<P> {
    Origin,
    At(P),
}

/// The motion between two poses: the transformation `to ∘ from⁻¹`, which
/// carries `from` onto `to`.
#[derive(Clone, Copy, Debug, PartialEq, Eq)]
pub struct PoseDelta<P> {
    pub to: Pose<P>,
    pub from: Pose<P>,
}

/// The change of one reading: none, or `to - from`.
#[derive(Clone, Copy, Debug, PartialEq, Eq, Structural)]
pub enum Change {
    Zero,
    Between { to: u64, from: u64 },
}

/// A point on the touch pad, each coordinate as the bits of a binary64 value.
#[derive(Clone, Copy, Debug, PartialEq, Eq, Structural)]
pub struct PadPoint {
    pub x: u64,
    pub y: u64,
}

/// The change of a point on the touch pad: none, or `to - from`, per axis.
#[derive(Clone, Copy, Debug, PartialEq, Eq, Structural)]
pub enum PadChange {
    Zero,
    Between { to: PadPoint, from: PadPoint },
}

/// The device that a tracker follows has fewer inputs than it reads.
#[derive(Clone, Copy, Debug, PartialEq, Eq, Structural)]
pub struct DeviceMismatch {
    /// How many axes the device has.
    pub axes: usize,
    /// How many buttons the device has.
    pub buttons: usize,
}

/// The binary64 value with these bits is zero (either sign).
pub open spec fn is_zero_reading(bits: u64) -> bool {
    bits == 0 || bits == 0x8000_0000_0000_0000u64
}

fn reading_is_zero(bits: u64) -> (r: bool)
    ensures
        r == is_zero_reading(bits),
{
    bits == 0 || bits == 0x8000_0000_0000_0000u64
}

/// Persistent state of a hand controller (trigger on axis 2, touch pad on
/// axes 0 and 1, menu button 0, grip button 1), kept up to date from
/// successive snapshots.
#[derive(Clone, Copy, Debug)]
pub struct ViveController<P> {
    /// The controller that updates this state.
    pub is: ControllerRef,
    /// Was the controller connected at the last update?
    pub connected: bool,
    /// The last known pose.
    pub pose: Pose<P>,
    /// The motion between the two most recent poses.
    pub pose_delta: PoseDelta<P>,
    /// How far the trigger is pulled.
    pub trigger: u64,
    /// The change of the trigger between the two most recent updates.
    pub trigger_delta: Change,
    /// The last touched point of the pad.
    pub pad: PadPoint,
    /// The change of the touched point between the two most recent updates.
    pub pad_delta: PadChange,
    /// Is the pad touched?
    pub pad_touched: bool,
    /// Is the menu button pressed?
    pub menu: bool,
    /// Are the grip buttons pressed?
    pub grip: bool,
}

/// The state of a tracker whose controller is absent from a snapshot: the
/// inputs are released and the last pose is kept.
pub open spec fn released<P>(s: ViveController<P>) -> ViveController<P> {
    ViveController { connected: false, trigger: 0, pad_touched: false, menu: false, grip: false, ..s }
}

/// The state of a tracker after reading the moment `c` of its controller.
pub open spec fn followed<P>(s: ViveController<P>, c: ControllerMoment<P>) -> ViveController<P> {
    let x = c.axes@[0];
    let y = c.axes@[1];
    let touched = !(is_zero_reading(x) && is_zero_reading(y));
    ViveController {
        is: s.is,
        connected: true,
        pose: Pose::At(c.pose),
        pose_delta: PoseDelta { to: Pose::At(c.pose), from: s.pose },
        trigger: c.axes@[2],
        trigger_delta: Change::Between { to: c.axes@[2], from: s.trigger },
        pad: if touched { PadPoint { x, y } } else { s.pad },
        pad_delta: if touched && s.pad_touched {
            PadChange::Between { to: PadPoint { x, y }, from: s.pad }
        } else {
            PadChange::Zero
        },
        pad_touched: touched,
        menu: c.buttons@[0].pressed,
        grip: c.buttons@[1].pressed,
    }
}

/// Does the moment have the inputs a tracker reads?
pub open spec fn fits_tracker<P>(c: ControllerMoment<P>) -> bool {
    c.axes@.len() >= 3 && c.buttons@.len() >= 2
}

impl<P: Copy> ViveController<P> {
    /// A tracker of the controller `reference`, disconnected, at the origin,
    /// with nothing pressed or touched and no change recorded.
    pub fn new(reference: ControllerRef) -> (r: ViveController<P>)
        ensures
            r == (ViveController::<P> {
                is: reference,
                connected: false,
                pose: Pose::Origin,
                pose_delta: PoseDelta { to: Pose::Origin, from: Pose::Origin },
                trigger: 0,
                trigger_delta: Change::Zero,
                pad: PadPoint { x: 0, y: 0 },
                pad_delta: PadChange::Zero,
                pad_touched: false,
                menu: false,
                grip: false,
            }),
    {
        ViveController {
            is: reference,
            connected: false,
            pose: Pose::Origin,
            pose_delta: PoseDelta { to: Pose::Origin, from: Pose::Origin },
            trigger: 0,
            trigger_delta: Change::Zero,
            pad: PadPoint { x: 0, y: 0 },
            pad_delta: PadChange::Zero,
            pad_touched: false,
            menu: false,
            grip: false,
        }
    }

    /// Updates the state from a snapshot. A controller that is absent is not
    /// an error: its inputs are released. A controller with fewer than three
    /// axes or two buttons leaves the state untouched and is reported.
    pub fn update<H>(&mut self, mom: &VrMoment<P, H>) -> (r: Result<(), DeviceMismatch>)
        ensures
            match moment_for(old(self).is, mom@) {
                None => r is Ok && *final(self) == released(*old(self)),
                Some(c) => if fits_tracker(c) {
                    r is Ok && *final(self) == followed(*old(self), c)
                } else {
                    r == Err::<(), DeviceMismatch>(
                        DeviceMismatch { axes: c.axes@.len() as usize, buttons: c.buttons@.len() as usize },
                    ) && *final(self) == *old(self)
                },
            },
            r is Ok && final(self).connected ==> final(self).pose_delta == (PoseDelta {
                to: final(self).pose,
                from: old(self).pose,
            }),
            r is Ok && final(self).connected && !old(self).pad_touched ==> final(self).pad_delta
                == PadChange::Zero,
    {
        match mom.controller(self.is) {
            Some(cont) => {
                if cont.axes.len() < 3 || cont.buttons.len() < 2 {
                    return Err(DeviceMismatch { axes: cont.axes.len(), buttons: cont.buttons.len() });
                }
                self.connected = true;
                self.pose_delta = PoseDelta { to: Pose::At(cont.pose), from: self.pose };
                self.pose = Pose::At(cont.pose);
                let x = cont.axes[0];
                let y = cont.axes[1];
                if !reading_is_zero(x) || !reading_is_zero(y) {
                    if self.pad_touched {
                        self.pad_delta = PadChange::Between { to: PadPoint { x, y }, from: self.pad };
                    } else {
                        self.pad_delta = PadChange::Zero;
                    }
                    self.pad = PadPoint { x, y };
                    self.pad_touched = true;
                } else {
                    self.pad_touched = false;
                    self.pad_delta = PadChange::Zero;
                }
                self.trigger_delta = Change::Between { to: cont.axes[2], from: self.trigger };
                self.trigger = cont.axes[2];
                self.menu = cont.buttons[0].pressed;
                self.grip = cont.buttons[1].pressed;
            },
            None => {
                self.pad_touched = false;
                self.menu = false;
                self.grip = false;
                self.trigger = 0;
                self.connected = false;
            },
        }
        Ok(())
    }
}

} // verus!
