use flight_vr::draw::{light_slots, ClipRect, Command, Eye, FrameCommands, Painter, PrimitiveKind, StereoTarget, UnsetupPrimitive, LIGHT_COUNT};

fn target() -> StereoTarget {
    StereoTarget {
        left: ClipRect { x: 0, y: 0, w: 100, h: 80 },
        right: ClipRect { x: 100, y: 0, w: 100, h: 80 },
    }
}

fn count_draws(cmds: &[Command<u32, &'static str>]) -> usize {
    cmds.iter().filter(|c| matches!(c, Command::Draw { .. })).count()
}

fn count_transforms(cmds: &[Command<u32, &'static str>], model: u32, eye: Eye) -> usize {
    cmds.iter()
        .filter(|c| matches!(c, Command::Transform { eye: e, model: m } if *e == eye && *m == model))
        .count()
}

#[test]
fn draw_without_setup_records_nothing_and_logs_one_error() {
    let mut painter: Painter<&'static str, u8> = Painter::new(0);
    let mut frame: FrameCommands<u32, &'static str> = FrameCommands::new();
    painter.draw(&mut frame, target(), 7, "cube", PrimitiveKind::TriangleList);
    assert_eq!(frame.commands.len(), 0);
    assert_eq!(count_draws(&frame.commands), 0);
    assert_eq!(frame.errors, vec![UnsetupPrimitive { given: PrimitiveKind::TriangleList }]);
}

#[test]
fn try_draw_without_setup_is_an_error() {
    let mut painter: Painter<&'static str, u8> = Painter::new(0);
    let mut cmds: Vec<Command<u32, &'static str>> = Vec::new();
    let r = painter.try_draw(&mut cmds, target(), 1, "line", PrimitiveKind::LineList);
    assert_eq!(r, Err(UnsetupPrimitive { given: PrimitiveKind::LineList }));
    assert!(cmds.is_empty());
}

#[test]
fn two_meshes_one_frame_give_four_draws() {
    let mut painter: Painter<&'static str, u8> = Painter::new(0);
    let r: Result<(), ()> = painter.setup(PrimitiveKind::TriangleList, |_, _| Ok("triangles"));
    assert_eq!(r, Ok(()));
    let mut frame: FrameCommands<u32, &'static str> = FrameCommands::new();
    painter.draw(&mut frame, target(), 1, "first", PrimitiveKind::TriangleList);
    painter.draw(&mut frame, target(), 2, "second", PrimitiveKind::TriangleList);
    assert!(frame.errors.is_empty());
    assert_eq!(count_draws(&frame.commands), 4);
    for model in [1u32, 2] {
        assert_eq!(count_transforms(&frame.commands, model, Eye::Left), 1);
        assert_eq!(count_transforms(&frame.commands, model, Eye::Right), 1);
    }
}

#[test]
fn draw_order_is_left_then_right_and_inputs_go_once() {
    let mut painter: Painter<&'static str, u8> = Painter::new(0);
    let _: Result<(), ()> = painter.setup(PrimitiveKind::TriangleList, |_, _| Ok("triangles"));
    let mut cmds: Vec<Command<u32, &'static str>> = Vec::new();
    assert_eq!(painter.try_draw(&mut cmds, target(), 5, "m", PrimitiveKind::TriangleList), Ok(()));
    let t = target();
    assert_eq!(
        cmds,
        vec![
            Command::Transform { eye: Eye::Left, model: 5 },
            Command::Inputs,
            Command::Draw { eye: Eye::Left, primitive: PrimitiveKind::TriangleList, mesh: "m", clip: t.left },
            Command::Transform { eye: Eye::Right, model: 5 },
            Command::Draw { eye: Eye::Right, primitive: PrimitiveKind::TriangleList, mesh: "m", clip: t.right },
        ]
    );
    // Nothing pending any more: the next draw uploads transforms only.
    cmds.clear();
    assert_eq!(painter.try_draw(&mut cmds, target(), 6, "m", PrimitiveKind::TriangleList), Ok(()));
    assert_eq!(cmds.len(), 4);
    assert!(!cmds.contains(&Command::Inputs));
}

#[test]
fn cfg_changes_inputs_and_marks_them_pending() {
    let mut painter: Painter<&'static str, u8> = Painter::new(3);
    let _: Result<(), ()> = painter.setup(PrimitiveKind::PointList, |i, _| if *i == 3 { Ok("points") } else { Err(()) });
    let mut cmds: Vec<Command<u32, &'static str>> = Vec::new();
    let _ = painter.try_draw(&mut cmds, target(), 0, "p", PrimitiveKind::PointList);
    *painter.cfg() = 9;
    cmds.clear();
    let _ = painter.try_draw(&mut cmds, target(), 0, "p", PrimitiveKind::PointList);
    assert_eq!(cmds.iter().filter(|c| **c == Command::Inputs).count(), 1);
    assert_eq!(cmds[1], Command::Inputs);
    assert_eq!(*painter.cfg(), 9);
}

#[test]
fn setup_twice_keeps_the_first_pipeline() {
    let mut painter: Painter<&'static str, u8> = Painter::new(0);
    let mut calls = 0;
    let r1: Result<(), ()> = painter.setup(PrimitiveKind::LineStrip, |_, _| {
        calls += 1;
        Ok("first")
    });
    let r2: Result<(), ()> = painter.setup(PrimitiveKind::LineStrip, |_, _| Ok("second"));
    assert_eq!((r1, r2), (Ok(()), Ok(())));
    assert_eq!(calls, 1);
    assert!(painter.is_setup(PrimitiveKind::LineStrip));
    assert!(!painter.is_setup(PrimitiveKind::LineList));
}

#[test]
fn failed_setup_reports_and_leaves_kind_unset() {
    let mut painter: Painter<&'static str, u8> = Painter::new(0);
    let r: Result<(), &'static str> = painter.setup(PrimitiveKind::PatchList(3), |_, _| Err("no geometry shader"));
    assert_eq!(r, Err("no geometry shader"));
    assert!(!painter.is_setup(PrimitiveKind::PatchList(3)));
    let ok: Result<(), &'static str> = painter.setup(PrimitiveKind::PatchList(4), |_, _| Ok("patches"));
    assert_eq!(ok, Ok(()));
    assert!(painter.is_setup(PrimitiveKind::PatchList(4)));
    assert!(!painter.is_setup(PrimitiveKind::PatchList(3)));
}

#[test]
fn primitive_codes_differ() {
    assert_eq!(PrimitiveKind::PointList.code(), 0);
    assert_eq!(PrimitiveKind::TriangleStripAdjacency.code(), 8);
    assert_eq!(PrimitiveKind::PatchList(0).code(), 9);
    assert_eq!(PrimitiveKind::PatchList(255).code(), 264);
}

#[test]
fn light_slots_keep_first_four_and_fill_the_rest() {
    assert_eq!(LIGHT_COUNT, 4);
    assert_eq!(light_slots(&vec![7, 8], 0), [7, 8, 0, 0]);
    assert_eq!(light_slots(&vec![1, 2, 3, 4, 5, 6], 0), [1, 2, 3, 4]);
    assert_eq!(light_slots(&Vec::new(), 9), [9, 9, 9, 9]);
}
