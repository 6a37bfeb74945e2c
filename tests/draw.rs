use nannou_draw::context::{
    BlendDescriptor, BlendFactor, BlendOperation, Context, Euler, PrimitiveTopology, Scissor,
    Transform, TransformStep,
};
use nannou_draw::draw::Draw;
use nannou_draw::geom::{deg_to_rad, pt2, turns_to_rad, Range, Rect, Scalar};
use nannou_draw::mesh_renderer::mesh_geometry;
use nannou_draw::primitive::Primitive;
use nannou_draw::properties::Srgba;
use nannou_draw::replay::replay;
use nannou_draw::geom::pt3;
use nannou_draw::primitive::path::PathMode;
use nannou_draw::state::{DrawCommand, Mesh, PathEvent, State};

fn s(n: i32) -> Scalar {
    Scalar::from_int(n)
}

fn rect(l: i32, r: i32, b: i32, t: i32) -> Rect {
    Rect::from_l_r_b_t(s(l), s(r), s(b), s(t))
}

fn rotation_z(raw: i64) -> Transform {
    Transform::Compose(
        Box::new(Transform::Identity),
        TransformStep::Rotate(Euler { x: s(0), y: s(0), z: Scalar::from_raw(raw) }),
    )
}

fn is_context(cmd: &DrawCommand) -> bool {
    matches!(cmd, DrawCommand::Context(_))
}

#[test]
fn rotate_rect_then_tri_yields_four_commands() {
    let mut state = State::new();
    let draw = Draw::new();
    draw.z_degrees(s(90)).rect(&mut state);
    draw.rotate(s(0)).tri(&mut state);
    let cmds = draw.drain_commands(&mut state);
    assert_eq!(cmds.len(), 4);
    match &cmds[0] {
        DrawCommand::Context(c) => assert!(c.transform == rotation_z(1_570_796)),
        _ => panic!("expected a context change"),
    }
    assert!(matches!(cmds[1], DrawCommand::Primitive(Primitive::Rect(_))));
    match &cmds[2] {
        DrawCommand::Context(c) => assert!(*c == Context::new()),
        _ => panic!("expected a context change"),
    }
    assert!(matches!(cmds[3], DrawCommand::Primitive(Primitive::Tri(_))));
}

#[test]
fn same_context_emits_one_change() {
    let mut state = State::new();
    let draw = Draw::new();
    draw.ellipse(&mut state);
    draw.rect(&mut state);
    draw.clone().line(&mut state);
    let moved = draw.x(s(10));
    moved.quad(&mut state);
    moved.tri(&mut state);
    draw.rect(&mut state);
    let cmds = draw.drain_commands(&mut state);
    let changes: Vec<bool> = cmds.iter().map(is_context).collect();
    assert_eq!(
        changes,
        vec![true, false, false, false, true, false, false, true, false]
    );
}

#[test]
fn second_drain_is_empty() {
    let mut state = State::new();
    let draw = Draw::new();
    draw.ellipse(&mut state).radius(&mut state, s(5));
    let first = draw.drain_commands(&mut state);
    assert_eq!(first.len(), 2);
    let second = draw.drain_commands(&mut state);
    assert!(second.is_empty());
}

#[test]
fn pending_shape_is_drained_fully_configured() {
    let mut state = State::new();
    let draw = Draw::new();
    let red = Srgba::rgb(255, 0, 0);
    draw.ellipse(&mut state)
        .radius(&mut state, s(50))
        .resolution(&mut state, 12)
        .color(&mut state, red);
    let cmds = draw.drain_commands(&mut state);
    match &cmds[1] {
        DrawCommand::Primitive(Primitive::Ellipse(e)) => {
            assert_eq!(e.dimensions.x, Some(s(100)));
            assert_eq!(e.dimensions.y, Some(s(100)));
            assert_eq!(e.resolution, Some(12));
            assert_eq!(e.polygon.color, Some(red));
        }
        _ => panic!("expected the ellipse"),
    }
}

#[test]
fn finished_and_pending_shapes_keep_call_order() {
    let mut state = State::new();
    let draw = Draw::new();
    let first = draw.line(&mut state);
    let second = draw.rect(&mut state);
    second.finish(&mut state);
    first.points(&mut state, pt2(s(1), s(2)), pt2(s(3), s(4)));
    draw.finish_remaining_drawings(&mut state);
    let cmds = draw.drain_commands(&mut state);
    assert_eq!(cmds.len(), 3);
    match &cmds[1] {
        DrawCommand::Primitive(Primitive::Line(l)) => {
            assert_eq!(l.start, Some(pt2(s(1), s(2))));
            assert_eq!(l.end, Some(pt2(s(3), s(4))));
        }
        _ => panic!("expected the line"),
    }
    assert!(matches!(cmds[2], DrawCommand::Primitive(Primitive::Rect(_))));
}

#[test]
fn finishing_twice_changes_nothing() {
    let mut state = State::new();
    let draw = Draw::new();
    let d = draw.rect(&mut state);
    d.finish(&mut state);
    d.color(&mut state, Srgba::rgb(1, 2, 3));
    d.finish(&mut state);
    let cmds = draw.drain_commands(&mut state);
    match &cmds[1] {
        DrawCommand::Primitive(Primitive::Rect(r)) => assert_eq!(r.polygon.color, None),
        _ => panic!("expected the rectangle"),
    }
}

#[test]
fn reset_matches_fresh_state() {
    let mut state = State::new();
    let draw = Draw::new();
    draw.background().color(&mut state, Srgba::rgb(10, 20, 30));
    draw.rotate(s(1)).ellipse(&mut state);
    draw.reset(&mut state);
    assert_eq!(state.background_color(), None);
    assert!(draw.drain_commands(&mut state).is_empty());
    draw.rotate(s(1)).ellipse(&mut state);
    let cmds = draw.drain_commands(&mut state);
    assert_eq!(cmds.len(), 2);
    assert!(is_context(&cmds[0]));
}

#[test]
fn background_last_call_wins() {
    let mut state = State::new();
    let draw = Draw::new();
    assert_eq!(state.background_color(), None);
    draw.background().color(&mut state, Srgba::rgb(1, 1, 1));
    draw.background().color(&mut state, Srgba::rgb(2, 2, 2));
    assert_eq!(state.background_color(), Some(Srgba::rgb(2, 2, 2)));
    assert!(draw.drain_commands(&mut state).is_empty());
}

#[test]
fn scissor_composition() {
    let draw = Draw::new();
    let a = rect(0, 10, 0, 10);
    let b = rect(5, 20, -5, 5);
    let first = draw.scissor(a);
    assert_eq!(first.context().scissor, Scissor::Rect(a));
    let second = first.scissor(b);
    assert_eq!(second.context().scissor, Scissor::Rect(rect(5, 10, 0, 5)));
    let apart = first.scissor(rect(11, 12, 0, 10));
    assert_eq!(apart.context().scissor, Scissor::NoOverlap);
    let still = apart.scissor(a);
    assert_eq!(still.context().scissor, Scissor::NoOverlap);
    assert_eq!(draw.context().scissor, Scissor::Full);
}

#[test]
fn scissor_touching_edges_overlap() {
    let touching = rect(0, 10, 0, 10).overlap(rect(10, 20, 0, 10));
    assert_eq!(touching, Some(rect(10, 10, 0, 10)));
    let reversed = Rect { x: Range::new(s(10), s(0)), y: Range::new(s(0), s(10)) };
    assert_eq!(reversed.overlap(rect(5, 6, 5, 6)), Some(rect(5, 6, 5, 6)));
}

#[test]
fn degenerate_line_contributes_no_geometry() {
    let mut state = State::new();
    let draw = Draw::new();
    draw.line(&mut state).points(&mut state, pt2(s(0), s(0)), pt2(s(0), s(0)));
    let cmds = draw.drain_commands(&mut state);
    let mesh = Mesh::new();
    let before = mesh.vertex_count();
    match &cmds[1] {
        DrawCommand::Primitive(p @ Primitive::Line(l)) => {
            assert_eq!(l.segment(), None);
            assert_eq!(mesh_geometry(p), Ok(None));
        }
        _ => panic!("expected the line"),
    }
    assert_eq!(mesh.vertex_count(), before);
}

#[test]
fn line_segment_defaults_ends_to_origin() {
    let mut state = State::new();
    let draw = Draw::new();
    draw.line(&mut state).end(&mut state, pt2(s(3), s(0)));
    let cmds = draw.drain_commands(&mut state);
    match &cmds[1] {
        DrawCommand::Primitive(Primitive::Line(l)) => {
            assert_eq!(l.segment(), Some((pt2(s(0), s(0)), pt2(s(3), s(0)))))
        }
        _ => panic!("expected the line"),
    }
}

#[test]
fn handles_do_not_change_each_other() {
    let draw = Draw::new();
    let moved = draw.x_y(s(1), s(2));
    let lines = draw.line_mode();
    assert!(draw.context().transform == Transform::Identity);
    assert_eq!(draw.context().topology, PrimitiveTopology::TriangleList);
    assert_eq!(lines.context().topology, PrimitiveTopology::LineList);
    assert_eq!(draw.point_mode().context().topology, PrimitiveTopology::PointList);
    assert!(moved.context().transform != draw.context().transform);
    assert!(*draw.context() == Context::new());
}

#[test]
fn blend_replaces_color_blend() {
    let draw = Draw::new();
    let add = BlendDescriptor {
        src_factor: BlendFactor::One,
        dst_factor: BlendFactor::One,
        operation: BlendOperation::Add,
    };
    let blended = draw.blend(add);
    assert_eq!(blended.context().color_blend, add);
    assert_eq!(blended.context().alpha_blend, draw.context().alpha_blend);
    let alpha = draw.alpha_blend(add);
    assert_eq!(alpha.context().alpha_blend, add);
    assert_eq!(alpha.context().color_blend, draw.context().color_blend);
}

#[test]
fn angle_conversions() {
    assert_eq!(deg_to_rad(s(90)).raw, 1_570_796);
    assert_eq!(deg_to_rad(s(-180)).raw, -3_141_593);
    assert_eq!(turns_to_rad(Scalar::from_raw(250_000)).raw, 1_570_796);
    assert_eq!(turns_to_rad(s(-1)).raw, -6_283_185);
}

#[test]
fn degrees_and_turns_build_the_same_rotation() {
    let draw = Draw::new();
    let by_degrees = draw.z_degrees(s(90));
    let by_turns = draw.z_turns(Scalar::from_raw(250_000));
    let by_radians = draw.rotate(Scalar::from_raw(1_570_796));
    assert!(by_degrees.context() == by_turns.context());
    assert!(by_degrees.context() == by_radians.context());
}

#[test]
fn sizes_default_and_reject_depth() {
    let mut state = State::new();
    let draw = Draw::new();
    draw.ellipse(&mut state).w_h(&mut state, s(-30), s(40));
    draw.rect(&mut state);
    let cmds = draw.drain_commands(&mut state);
    match &cmds[1] {
        DrawCommand::Primitive(Primitive::Ellipse(e)) => {
            assert_eq!(e.size(), Ok((s(30), s(40))));
            let mut deep = *e;
            deep.dimensions.z = Some(s(1));
            assert_eq!(
                deep.size(),
                Err(nannou_draw::primitive::RenderError::UnsupportedConfiguration)
            );
        }
        _ => panic!("expected the ellipse"),
    }
    match &cmds[2] {
        DrawCommand::Primitive(Primitive::Rect(r)) => assert_eq!(r.size(), Ok((s(100), s(100)))),
        _ => panic!("expected the rectangle"),
    }
}

#[test]
fn replay_pairs_shapes_with_their_context() {
    let mut state = State::new();
    let draw = Draw::new();
    let turned = draw.rotate(s(1));
    draw.rect(&mut state);
    turned.tri(&mut state);
    turned.ellipse(&mut state);
    let cmds = draw.drain_commands(&mut state);
    let placed = replay(&cmds);
    assert_eq!(placed.len(), 3);
    assert!(placed[0].context == Context::new());
    assert!(placed[1].context == *turned.context());
    assert!(placed[2].context == *turned.context());
    assert!(matches!(placed[1].primitive, Primitive::Tri(_)));
}

#[test]
fn quad_and_tri_builders() {
    let mut state = State::new();
    let draw = Draw::new();
    let yellow = Srgba::rgb(255, 255, 0);
    draw.quad(&mut state)
        .points(&mut state, pt2(s(0), s(0)), pt2(s(0), s(1)), pt2(s(1), s(1)), pt2(s(1), s(0)))
        .stroke(&mut state, yellow)
        .stroke_weight(&mut state, s(5));
    draw.tri(&mut state).points(&mut state, pt2(s(-80), s(50)), pt2(s(-50), s(-60)), pt2(s(75), s(3)));
    let cmds = draw.drain_commands(&mut state);
    match &cmds[1] {
        DrawCommand::Primitive(Primitive::Quad(q)) => {
            assert_eq!(q.quad.c, pt2(s(1), s(1)));
            assert_eq!(q.polygon.stroke_color, Some(yellow));
            assert_eq!(q.polygon.stroke.map(|o| o.line_width), Some(s(5)));
        }
        _ => panic!("expected the quad"),
    }
    match &cmds[2] {
        DrawCommand::Primitive(Primitive::Tri(t)) => assert_eq!(t.tri.b, pt2(s(-50), s(-60))),
        _ => panic!("expected the triangle"),
    }
}

#[test]
fn line_builders() {
    let mut state = State::new();
    let draw = Draw::new();
    draw.line(&mut state)
        .weight(&mut state, s(10))
        .tolerance(&mut state, Scalar::from_raw(50_000))
        .caps_round(&mut state)
        .start(&mut state, pt2(s(0), s(-50)));
    let cmds = draw.drain_commands(&mut state);
    match &cmds[1] {
        DrawCommand::Primitive(Primitive::Line(l)) => {
            assert_eq!(l.path.opts.line_width, s(10));
            assert_eq!(l.path.opts.tolerance.raw, 50_000);
            assert_eq!(l.path.opts.start_cap, nannou_draw::properties::LineCap::Round);
            assert_eq!(l.end, None);
        }
        _ => panic!("expected the line"),
    }
}

#[test]
fn arrow_is_recorded_with_its_head() {
    let mut state = State::new();
    let draw = Draw::new();
    draw.arrow(&mut state)
        .weight(&mut state, s(10))
        .points(&mut state, pt2(s(0), s(-60)), pt2(s(0), s(60)))
        .head_length(&mut state, s(7))
        .head_width(&mut state, s(4))
        .color(&mut state, Srgba::rgb(255, 0, 0));
    let cmds = draw.drain_commands(&mut state);
    match &cmds[1] {
        DrawCommand::Primitive(p @ Primitive::Arrow(a)) => {
            assert_eq!(a.head_length, Some(s(7)));
            assert_eq!(a.head_width, Some(s(4)));
            assert_eq!(a.line.path.opts.line_width, s(10));
            assert_eq!(a.line.path.color, Some(Srgba::rgb(255, 0, 0)));
            assert_eq!(nannou_draw::svg_renderer::svg_element(p), Ok(None));
        }
        _ => panic!("expected the arrow"),
    }
}

#[test]
fn a_records_any_primitive() {
    let mut state = State::new();
    let draw = Draw::new();
    let rect = nannou_draw::primitive::rect::Rect::from_region(rect(0, 10, 20, 40));
    let d = draw.a(&mut state, Primitive::Rect(rect));
    assert_eq!(d.slot(), 1);
    let cmds = draw.drain_commands(&mut state);
    match &cmds[1] {
        DrawCommand::Primitive(Primitive::Rect(r)) => {
            assert_eq!(r.dimensions.x, Some(s(10)));
            assert_eq!(r.dimensions.y, Some(s(20)));
            assert_eq!(r.polygon.position.point.x, s(5));
            assert_eq!(r.polygon.position.point.y, s(30));
        }
        _ => panic!("expected the rectangle"),
    }
}

#[test]
fn quad_drawing_stretches_when_drawn() {
    let mut state = State::new();
    let draw = Draw::new();
    draw.quad(&mut state).w_h(&mut state, s(10), s(20));
    let cmds = draw.drain_commands(&mut state);
    match &cmds[1] {
        DrawCommand::Primitive(Primitive::Quad(q)) => {
            let v = q.vertices();
            assert_eq!(v.a, pt2(s(-5), s(-10)));
            assert_eq!(v.c, pt2(s(5), s(10)));
        }
        _ => panic!("expected the quad"),
    }
}

#[test]
fn transform_steps_compose_in_order() {
    let draw = Draw::new();
    let moved = draw.x_y(s(1), s(2)).scale(s(3));
    match &moved.context().transform {
        Transform::Compose(rest, TransformStep::Scale(v)) => {
            assert_eq!(v.x, s(3));
            assert!(matches!(**rest, Transform::Compose(_, TransformStep::Translate(_))));
        }
        _ => panic!("expected a scale after a translation"),
    }
    assert!(draw.x_y(s(1), s(2)).context() == draw.xy(pt2(s(1), s(2))).context());
    assert!(draw.x(s(1)).context() != draw.y(s(1)).context());
}

#[test]
fn drain_keeps_remembered_context() {
    let mut state = State::new();
    let draw = Draw::new();
    draw.rect(&mut state);
    assert_eq!(draw.drain_commands(&mut state).len(), 2);
    draw.rect(&mut state);
    let cmds = draw.drain_commands(&mut state);
    assert_eq!(cmds.len(), 1);
    assert!(matches!(cmds[0], DrawCommand::Primitive(Primitive::Rect(_))));
}

#[test]
fn identity_steps_keep_the_context() {
    let draw = Draw::new();
    assert!(draw.rotate(s(0)).context() == draw.context());
    assert!(draw.x(s(0)).context() == draw.context());
    assert!(draw.scale(s(1)).context() == draw.context());
    assert!(draw.z_degrees(s(0)).context() == draw.context());
    let turned = draw.rotate(s(1));
    assert!(turned.x_y(s(0), s(0)).context() == turned.context());
    assert!(draw.scale(s(2)).context() != draw.context());
}

#[test]
fn rotate_zero_emits_no_change_after_default() {
    let mut state = State::new();
    let draw = Draw::new();
    draw.rect(&mut state);
    draw.rotate(s(0)).tri(&mut state);
    let cmds = draw.drain_commands(&mut state);
    assert_eq!(cmds.len(), 3);
}

#[test]
fn path_is_stroked_then_given_points() {
    let mut state = State::new();
    let draw = Draw::new();
    let pts = vec![pt2(s(0), s(0)), pt2(s(1), s(0)), pt2(s(1), s(1))];
    draw.path(&mut state).stroke(&mut state).points(&mut state, &pts);
    draw.polyline(&mut state).points(&mut state, &vec![]);
    let events = &state.intermediary_state().path_event_buffer;
    assert_eq!(events.len(), 4);
    assert_eq!(events[0], PathEvent::Begin { at: pts[0] });
    assert_eq!(events[2], PathEvent::Line { from: pts[1], to: pts[2] });
    assert_eq!(events[3], PathEvent::End { last: pts[2], first: pts[0], close: false });
    let cmds = draw.drain_commands(&mut state);
    match &cmds[1] {
        DrawCommand::Primitive(Primitive::Path(p)) => {
            assert!(matches!(p.mode, PathMode::Stroke(_)));
            assert_eq!((p.events.start, p.events.end), (0, 4));
        }
        _ => panic!("expected the path"),
    }
    match &cmds[2] {
        DrawCommand::Primitive(Primitive::Path(p)) => assert_eq!((p.events.start, p.events.end), (4, 4)),
        _ => panic!("expected the empty path"),
    }
}

#[test]
fn polygon_mesh_text_and_texture() {
    let mut state = State::new();
    let draw = Draw::new();
    let pts = vec![pt2(s(0), s(0)), pt2(s(2), s(0)), pt2(s(0), s(2))];
    let poly = draw.polygon(&mut state);
    poly.points(&mut state, &pts);
    let tri = vec![pt3(s(0), s(0), s(0)), pt3(s(1), s(0), s(0)), pt3(s(0), s(1), s(0))];
    draw.mesh(&mut state).tris(&mut state, &tri);
    draw.text(&mut state, "héllo");
    draw.texture(&mut state, 7);
    let scratch = state.intermediary_state();
    assert_eq!(scratch.path_points_colored_buffer[1], (pts[1], Srgba::new(0, 0, 0, 255)));
    assert_eq!(scratch.intermediary_mesh.indices, vec![0, 1, 2]);
    assert_eq!(scratch.text_buffer.len(), 5);
    let cmds = draw.drain_commands(&mut state);
    assert_eq!(cmds.len(), 5);
    assert!(matches!(cmds[1], DrawCommand::Primitive(Primitive::Polygon(_))));
    assert!(matches!(cmds[2], DrawCommand::Primitive(Primitive::Mesh(_))));
    match &cmds[3] {
        DrawCommand::Primitive(Primitive::Text(t)) => assert_eq!((t.text.start, t.text.end), (0, 5)),
        _ => panic!("expected the text"),
    }
    match &cmds[4] {
        DrawCommand::Primitive(Primitive::Texture(t)) => assert_eq!(t.view, 7),
        _ => panic!("expected the texture"),
    }
}

#[test]
fn reset_empties_scratch_buffers() {
    let mut state = State::new();
    let draw = Draw::new();
    draw.text(&mut state, "abc");
    draw.polyline(&mut state).points(&mut state, &vec![pt2(s(0), s(0)), pt2(s(1), s(1))]);
    draw.reset(&mut state);
    let scratch = state.intermediary_state();
    assert!(scratch.text_buffer.is_empty());
    assert!(scratch.path_event_buffer.is_empty());
    assert!(draw.drain_commands(&mut state).is_empty());
}
