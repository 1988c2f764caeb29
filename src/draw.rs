//! A drawing style's registry of per-primitive pipelines and its stereo draw
//! path.
//!
//! Drawing records commands into a frame's command list rather than talking
//! to the graphics device: the transform uploads, shared-input uploads and
//! draw calls of each mesh, left eye first. The caller's model transforms
//! (`M`) and mesh handles (`G`) pass through unread, as do the compiled
//! pipelines (`S`) and the style's shared inputs (`I`).

use vstd::prelude::*;
use crate::idmap::{IdMap, id_map_new, id_map_insert, id_map_get};

verus! {

/// How the vertices of a mesh form geometry.
#[derive(Clone, Copy, Debug, PartialEq, Eq, Structural)]
pub enum PrimitiveKind {
    PointList,
    LineList,
    LineStrip,
    TriangleList,
    TriangleStrip,
    LineListAdjacency,
    LineStripAdjacency,
    TriangleListAdjacency,
    TriangleStripAdjacency,
    /// Patches of the given number of control points.
    PatchList(u8),
}

impl PrimitiveKind {
    /// A number that tells primitive kinds apart.
    pub open spec fn code_of(self) -> u32 {
        match self {
            PrimitiveKind::PointList => 0,
            PrimitiveKind::LineList => 1,
            PrimitiveKind::LineStrip => 2,
            PrimitiveKind::TriangleList => 3,
            PrimitiveKind::TriangleStrip => 4,
            PrimitiveKind::LineListAdjacency => 5,
            PrimitiveKind::LineStripAdjacency => 6,
            PrimitiveKind::TriangleListAdjacency => 7,
            PrimitiveKind::TriangleStripAdjacency => 8,
            PrimitiveKind::PatchList(n) => (9 + n) as u32,
        }
    }

    /// The number that tells this kind apart from the others.
    pub fn code(&self) -> (r: u32)
        ensures
            r == self.code_of(),
    {
        match *self {
            PrimitiveKind::PointList => 0,
            PrimitiveKind::LineList => 1,
            PrimitiveKind::LineStrip => 2,
            PrimitiveKind::TriangleList => 3,
            PrimitiveKind::TriangleStrip => 4,
            PrimitiveKind::LineListAdjacency => 5,
            PrimitiveKind::LineStripAdjacency => 6,
            PrimitiveKind::TriangleListAdjacency => 7,
            PrimitiveKind::TriangleStripAdjacency => 8,
            PrimitiveKind::PatchList(n) => 9 + n as u32,
        }
    }
}

/// A rectangle of the shared render target, in pixels.
#[derive(Clone, Copy, Debug, PartialEq, Eq, Structural)]
pub struct ClipRect {
    pub x: u16,
    pub y: u16,
    pub w: u16,
    pub h: u16,
}

/// One of the two eyes.
#[derive(Clone, Copy, Debug, PartialEq, Eq, Structural)]
pub enum Eye {
    Left,
    Right,
}

/// The parts of the shared render target that the two eyes draw into.
#[derive(Clone, Copy, Debug, PartialEq, Eq, Structural)]
pub struct StereoTarget {
    pub left: ClipRect,
    pub right: ClipRect,
}

impl StereoTarget {
    /// The rectangle of one eye.
    pub open spec fn clip_of(self, eye: Eye) -> ClipRect {
        match eye {
            Eye::Left => self.left,
            Eye::Right => self.right,
        }
    }
}

/// One recorded operation on the graphics device.
#[derive(Clone, Copy, Debug, PartialEq, Eq)]
pub enum Command<M, G> {
    /// Upload the transform block built from `model` and the parameters of `eye`.
    Transform { eye: Eye, model: M },
    /// Upload the style's pending shared inputs (lights, ambient, shading).
    Inputs,
    /// Draw `mesh` with the pipeline of `primitive`, restricted to `clip`.
    Draw { eye: Eye, primitive: PrimitiveKind, mesh: G, clip: ClipRect },
}

/// A draw was asked for a primitive kind that was never set up.
#[derive(Clone, Copy, Debug, PartialEq, Eq, Structural)]
pub struct UnsetupPrimitive {
    pub given: PrimitiveKind,
}

/// The commands and the logged errors of one frame.
pub struct FrameCommands<M, G> {
    pub commands: Vec<Command<M, G>>,
    pub errors: Vec<UnsetupPrimitive>,
}

impl<M, G> FrameCommands<M, G> {
    /// An empty frame.
    pub fn new() -> (r: FrameCommands<M, G>)
        ensures
            r.commands@.len() == 0,
            r.errors@.len() == 0,
    {
        FrameCommands { commands: Vec::new(), errors: Vec::new() }
    }
}

/// The commands of one eye's pass over a mesh: the transform upload, the
/// shared inputs if some are pending, and the draw.
pub open spec fn eye_pass<M, G>(
    eye: Eye,
    pending: bool,
    target: StereoTarget,
    model: M,
    mesh: G,
    prim: PrimitiveKind,
) -> Seq<Command<M, G>> {
    let head = seq![Command::Transform { eye, model }];
    let inputs = if pending { seq![Command::Inputs] } else { Seq::empty() };
    head + inputs + seq![Command::Draw { eye, primitive: prim, mesh, clip: target.clip_of(eye) }]
}

/// The commands of a stereo draw of a mesh: the left pass, then the right
/// pass; inputs pending before the left pass are uploaded by it alone.
pub open spec fn stereo_draw<M, G>(
    pending: bool,
    target: StereoTarget,
    model: M,
    mesh: G,
    prim: PrimitiveKind,
) -> Seq<Command<M, G>> {
    eye_pass(Eye::Left, pending, target, model, mesh, prim) + eye_pass(
        Eye::Right,
        false,
        target,
        model,
        mesh,
        prim,
    )
}

/// The number of draw commands in a command list.
pub open spec fn draws_in<M, G>(cmds: Seq<Command<M, G>>) -> nat
    decreases cmds.len(),
{
    if cmds.len() == 0 {
        0
    } else {
        draws_in(cmds.drop_last()) + if cmds.last() is Draw {
            1nat
        } else {
            0nat
        }
    }
}

/// The number of transform uploads for `eye` in a command list.
pub open spec fn transforms_in<M, G>(cmds: Seq<Command<M, G>>, eye: Eye) -> nat
    decreases cmds.len(),
{
    if cmds.len() == 0 {
        0
    } else {
        transforms_in(cmds.drop_last(), eye) + match cmds.last() {
            Command::Transform { eye: e, model: _ } => if e == eye {
                1nat
            } else {
                0nat
            },
            _ => 0nat,
        }
    }
}

/// Counting commands adds up over concatenation.
pub proof fn lemma_counts_add<M, G>(a: Seq<Command<M, G>>, b: Seq<Command<M, G>>)
    ensures
        draws_in(a + b) == draws_in(a) + draws_in(b),
        forall|eye: Eye| #[trigger] transforms_in(a + b, eye) == transforms_in(a, eye) + transforms_in(b, eye),
    decreases b.len(),
{
    if b.len() == 0 {
        assert(a + b =~= a);
    } else {
        lemma_counts_add(a, b.drop_last());
        assert((a + b).drop_last() =~= a + b.drop_last());
        assert((a + b).last() == b.last());
        assert(draws_in(a + b) == draws_in(a) + draws_in(b));
        assert forall|eye: Eye| #[trigger] transforms_in(a + b, eye) == transforms_in(a, eye)
            + transforms_in(b, eye) by {
            assert(transforms_in(a + b.drop_last(), eye) == transforms_in(a, eye) + transforms_in(
                b.drop_last(),
                eye,
            ));
        }
    }
}

proof fn lemma_counts_one<M, G>(c: Command<M, G>)
    ensures
        draws_in(seq![c]) == if c is Draw {
            1nat
        } else {
            0nat
        },
        forall|eye: Eye| #[trigger] transforms_in(seq![c], eye) == match c {
            Command::Transform { eye: e, model: _ } => if e == eye {
                1nat
            } else {
                0nat
            },
            _ => 0nat,
        },
{
    let s = seq![c];
    assert(s.drop_last() =~= Seq::<Command<M, G>>::empty());
    assert(s.last() == c);
    assert(draws_in(s.drop_last()) == 0);
    assert forall|eye: Eye| #[trigger] transforms_in(s, eye) == match c {
        Command::Transform { eye: e, model: _ } => if e == eye {
            1nat
        } else {
            0nat
        },
        _ => 0nat,
    } by {
        assert(transforms_in(s.drop_last(), eye) == 0);
    }
}

/// A stereo draw of one mesh records exactly two draw commands, one per
/// eye, and exactly one transform upload for each eye, whether or not
/// shared inputs were pending.
pub proof fn lemma_stereo_draw_counts<M, G>(
    pending: bool,
    target: StereoTarget,
    model: M,
    mesh: G,
    prim: PrimitiveKind,
)
    ensures
        draws_in(stereo_draw(pending, target, model, mesh, prim)) == 2,
        transforms_in(stereo_draw(pending, target, model, mesh, prim), Eye::Left) == 1,
        transforms_in(stereo_draw(pending, target, model, mesh, prim), Eye::Right) == 1,
{
    assert forall|eye: Eye, p: bool| draws_in(#[trigger] eye_pass(eye, p, target, model, mesh, prim)) == 1
        && transforms_in(eye_pass(eye, p, target, model, mesh, prim), eye) == 1
        && transforms_in(eye_pass(eye, p, target, model, mesh, prim), other_eye(eye)) == 0 by {
        let t = seq![Command::<M, G>::Transform { eye, model }];
        let i = if p { seq![Command::<M, G>::Inputs] } else { Seq::<Command<M, G>>::empty() };
        let d = seq![Command::<M, G>::Draw { eye, primitive: prim, mesh, clip: target.clip_of(eye) }];
        lemma_counts_add(t, i);
        lemma_counts_add(t + i, d);
        lemma_counts_one(Command::<M, G>::Transform { eye, model });
        lemma_counts_one(Command::<M, G>::Draw { eye, primitive: prim, mesh, clip: target.clip_of(eye) });
        if p {
            lemma_counts_one(Command::<M, G>::Inputs);
        } else {
            assert(draws_in(i) == 0);
            assert(transforms_in(i, eye) == 0);
            assert(transforms_in(i, other_eye(eye)) == 0);
        }
    }
    let l = eye_pass(Eye::Left, pending, target, model, mesh, prim);
    let r = eye_pass(Eye::Right, false, target, model, mesh, prim);
    lemma_counts_add(l, r);
    assert(other_eye(Eye::Left) == Eye::Right);
    assert(other_eye(Eye::Right) == Eye::Left);
}

/// The other eye.
pub open spec fn other_eye(eye: Eye) -> Eye {
    match eye {
        Eye::Left => Eye::Right,
        Eye::Right => Eye::Left,
    }
}

/// The number of point lights a lit style simulates.
pub const LIGHT_COUNT: usize = 4;

/// The light slots of a lit style: the first `LIGHT_COUNT` of `lights`, in
/// order, and `unused` in the slots left over.
pub fn light_slots<L: Copy>(lights: &Vec<L>, unused: L) -> (r: [L; LIGHT_COUNT])
    ensures
        forall|i: int|
            0 <= i < LIGHT_COUNT ==> #[trigger] r@[i] == if i < lights@.len() {
                lights@[i]
            } else {
                unused
            },
{
    let mut all = [unused; LIGHT_COUNT];
    let n = if lights.len() < LIGHT_COUNT {
        lights.len()
    } else {
        LIGHT_COUNT
    };
    let mut i: usize = 0;
    while i < n
        invariant
            i <= n <= LIGHT_COUNT,
            n <= lights@.len(),
            n == lights@.len() || n == LIGHT_COUNT,
            forall|j: int| 0 <= j < i ==> #[trigger] all@[j] == lights@[j],
            forall|j: int| i <= j < LIGHT_COUNT ==> #[trigger] all@[j] == unused,
        decreases n - i,
    {
        all.set(i, lights[i]);
        i = i + 1;
    }
    all
}

/// What a painter holds, as mathematical values.
pub struct PainterView<S, I> {
    /// The compiled pipeline of each primitive kind that was set up, by code.
    pub pipelines: Map<u32, S>,
    /// The style's shared inputs.
    pub inputs: I,
    /// Have the shared inputs changed since they were last uploaded?
    pub pending: bool,
}

/// Draws meshes in one style. A mesh can be drawn only with a primitive kind
/// that was set up before; a kind's pipeline, once compiled, is kept.
pub struct Painter<S, I> {
    inputs: I,
    pending: bool,
    map: IdMap<S>,
}

impl<S, I> View for Painter<S, I> {
    type V = PainterView<S, I>;

    closed spec fn view(&self) -> PainterView<S, I> {
        PainterView { pipelines: self.map@, inputs: self.inputs, pending: self.pending }
    }
}

impl<S, I> Painter<S, I> {
    /// A painter with the given shared inputs, no primitive set up, and its
    /// inputs still to be uploaded.
    pub fn new(inputs: I) -> (r: Painter<S, I>)
        ensures
            r@.pipelines.dom() == Set::<u32>::empty(),
            r@.inputs == inputs,
            r@.pending,
    {
        Painter { inputs, pending: true, map: id_map_new() }
    }

    /// Is `prim` set up?
    pub fn is_setup(&self, prim: PrimitiveKind) -> (r: bool)
        ensures
            r == self@.pipelines.contains_key(prim.code_of()),
    {
        id_map_get(&self.map, prim.code()).is_some()
    }

    /// Makes `prim` drawable: when it has no pipeline yet, `compile` builds
    /// one from the shared inputs and it is kept; when compiling fails, the
    /// error is returned and nothing changes. A kind that is set up already
    /// is left as it is, and `compile` is not called.
    pub fn setup<E, F: FnOnce(&I, PrimitiveKind) -> Result<S, E>>(
        &mut self,
        prim: PrimitiveKind,
        compile: F,
    ) -> (r: Result<(), E>)
        requires
            compile.requires((&old(self)@.inputs, prim)),
        ensures
            final(self)@.inputs == old(self)@.inputs,
            final(self)@.pending == old(self)@.pending,
            old(self)@.pipelines.contains_key(prim.code_of()) ==> r is Ok && final(self)@.pipelines
                == old(self)@.pipelines,
            !old(self)@.pipelines.contains_key(prim.code_of()) ==> exists|c: Result<S, E>|
                #[trigger] compile.ensures((&old(self)@.inputs, prim), c) && match c {
                    Ok(s) => r is Ok && final(self)@.pipelines == old(self)@.pipelines.insert(
                        prim.code_of(),
                        s,
                    ),
                    Err(e) => r == Err::<(), E>(e) && final(self)@.pipelines == old(self)@.pipelines,
                },
    {
        let code = prim.code();
        if id_map_get(&self.map, code).is_some() {
            return Ok(());
        }
        let c = compile(&self.inputs, prim);
        match c {
            Ok(s) => {
                id_map_insert(&mut self.map, code, s);
                Ok(())
            },
            Err(e) => Err(e),
        }
    }

    /// The shared inputs, for the caller to change; they are uploaded again
    /// by the next pass that draws.
    pub fn cfg(&mut self) -> (r: &mut I)
        ensures
            *r == old(self)@.inputs,
            final(self)@ == (PainterView { inputs: *final(r), pending: true, ..old(self)@ }),
    {
        self.pending = true;
        &mut self.inputs
    }

    /// Records a stereo draw of `mesh` (of kind `prim`, placed by `model`):
    /// for the left eye, then the right, a transform upload, an upload of the
    /// shared inputs if they are pending, and a draw restricted to the eye's
    /// rectangle. When `prim` was never set up nothing is recorded and the
    /// error is returned.
    pub fn try_draw<M: Copy, G: Copy>(
        &mut self,
        frame: &mut Vec<Command<M, G>>,
        target: StereoTarget,
        model: M,
        mesh: G,
        prim: PrimitiveKind,
    ) -> (r: Result<(), UnsetupPrimitive>)
        ensures
            old(self)@.pipelines.contains_key(prim.code_of()) ==> r is Ok && final(frame)@
                == old(frame)@ + stereo_draw(old(self)@.pending, target, model, mesh, prim)
                && final(self)@ == (PainterView { pending: false, ..old(self)@ }),
            !old(self)@.pipelines.contains_key(prim.code_of()) ==> r == Err::<(), UnsetupPrimitive>(
                UnsetupPrimitive { given: prim },
            ) && final(frame)@ == old(frame)@ && final(self)@ == old(self)@,
    {
        if !self.is_setup(prim) {
            return Err(UnsetupPrimitive { given: prim });
        }
        let ghost start = frame@;
        let ghost pending = self.pending;
        self.pass(frame, Eye::Left, target, model, mesh, prim);
        self.pass(frame, Eye::Right, target, model, mesh, prim);
        assert(frame@ =~= start + stereo_draw(pending, target, model, mesh, prim));
        Ok(())
    }

    /// One eye's pass; the pending inputs are uploaded by it.
    fn pass<M: Copy, G: Copy>(
        &mut self,
        frame: &mut Vec<Command<M, G>>,
        eye: Eye,
        target: StereoTarget,
        model: M,
        mesh: G,
        prim: PrimitiveKind,
    )
        ensures
            final(frame)@ == old(frame)@ + eye_pass(eye, old(self)@.pending, target, model, mesh, prim),
            final(self)@ == (PainterView { pending: false, ..old(self)@ }),
    {
        let ghost start = frame@;
        let ghost pending = self.pending;
        frame.push(Command::Transform { eye, model });
        if self.pending {
            frame.push(Command::Inputs);
            self.pending = false;
        }
        let clip = match eye {
            Eye::Left => target.left,
            Eye::Right => target.right,
        };
        frame.push(Command::Draw { eye, primitive: prim, mesh, clip });
        assert(frame@ =~= start + eye_pass(eye, pending, target, model, mesh, prim));
    }

    /// Records a stereo draw as [`Painter::try_draw`] does; an error is
    /// logged in the frame instead of returned, and the frame goes on.
    pub fn draw<M: Copy, G: Copy>(
        &mut self,
        frame: &mut FrameCommands<M, G>,
        target: StereoTarget,
        model: M,
        mesh: G,
        prim: PrimitiveKind,
    )
        ensures
            old(self)@.pipelines.contains_key(prim.code_of()) ==> final(frame).commands@
                == old(frame).commands@ + stereo_draw(old(self)@.pending, target, model, mesh, prim)
                && final(frame).errors@ == old(frame).errors@
                && final(self)@ == (PainterView { pending: false, ..old(self)@ }),
            !old(self)@.pipelines.contains_key(prim.code_of()) ==> final(frame).commands@
                == old(frame).commands@ && final(frame).errors@ == old(frame).errors@.push(
                UnsetupPrimitive { given: prim },
            ) && final(self)@ == old(self)@,
    {
        match self.try_draw(&mut frame.commands, target, model, mesh, prim) {
            Ok(()) => {},
            Err(e) => frame.errors.push(e),
        }
    }
}

} // verus!
