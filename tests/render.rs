use nannou_draw::draw::Draw;
use nannou_draw::geom::{half, pt2, rad_to_deg, rad_to_deg_sat, stretch, Scalar};
use nannou_draw::primitive::quad::{Corners, Quad};
use nannou_draw::primitive::line::Line;
use nannou_draw::primitive::rect::Rect;
use nannou_draw::primitive::tri::Tri;
use nannou_draw::primitive::ellipse::Ellipse;
use nannou_draw::primitive::{Primitive, RenderError};
use nannou_draw::properties::{LineCap, Srgba};
use nannou_draw::state::{DrawCommand, State};
use nannou_draw::svg_renderer::{svg_element, SvgShape};

fn s(n: i32) -> Scalar {
    Scalar::from_int(n)
}

#[test]
fn radians_to_degrees() {
    assert_eq!(rad_to_deg(Scalar::from_raw(3_141_593)).raw, 180_000_000);
    assert_eq!(rad_to_deg(Scalar::from_raw(-1_570_796)).raw, -89_999_971);
    assert_eq!(rad_to_deg_sat(Scalar::from_raw(i64::MAX)).raw, i64::MAX);
    assert_eq!(half(Scalar::from_raw(-5)).raw, -2);
}

#[test]
fn stretch_about_centre() {
    assert_eq!(stretch(10, 0, 4, 2), 20);
    assert_eq!(stretch(-10, 0, 4, 2), -20);
    assert_eq!(stretch(7, 5, 100, 0), 7);
    assert_eq!(stretch(i64::MAX, i64::MIN, i64::MAX, 1), i64::MAX);
}

#[test]
fn quad_vertices_follow_dimensions() {
    let q = Quad::new();
    assert_eq!(q.vertices(), q.quad);
    let mut wide = Quad::new();
    wide.dimensions.x = Some(s(200));
    let v = wide.vertices();
    assert_eq!(v.a, pt2(s(-100), s(-50)));
    assert_eq!(v.c, pt2(s(100), s(50)));
    let flat = Quad::new().points(pt2(s(0), s(1)), pt2(s(4), s(1)), pt2(s(4), s(1)), pt2(s(0), s(1)));
    let mut tall = flat;
    tall.dimensions.y = Some(s(10));
    assert_eq!(tall.vertices(), flat.quad);
}

#[test]
fn ellipse_element_defaults() {
    let el = svg_element(&Primitive::Ellipse(Ellipse::new())).unwrap().unwrap();
    assert_eq!(el.shape, SvgShape::Ellipse { rx: s(50), ry: s(50) });
    assert_eq!(el.fill, Some(Srgba::new(0, 0, 0, 255)));
    assert_eq!(el.stroke, None);
    let red = Srgba::rgb(255, 0, 0);
    let e = Ellipse::new().w_h(s(30), s(10)).x_y(s(3), s(4)).stroke(red).stroke_weight(s(2));
    let el = svg_element(&Primitive::Ellipse(e)).unwrap().unwrap();
    assert_eq!(el.shape, SvgShape::Ellipse { rx: s(15), ry: s(5) });
    assert_eq!(el.translate, pt2(s(3), s(-4)));
    assert_eq!(el.stroke, Some(red));
    assert_eq!(el.stroke_width, Some(s(2)));
}

#[test]
fn rect_element_is_centred_and_turned() {
    let r = Rect::new().w_h(s(78), s(100)).rotate(Scalar::from_raw(1_570_796));
    let el = svg_element(&Primitive::Rect(r)).unwrap().unwrap();
    assert_eq!(
        el.shape,
        SvgShape::Rect { x: s(-39), y: s(-50), width: s(78), height: s(100) }
    );
    assert_eq!(el.rotate.raw, -89_999_971);
    let mut deep = Rect::new();
    deep.dimensions.z = Some(s(1));
    assert_eq!(svg_element(&Primitive::Rect(deep)), Err(RenderError::UnsupportedConfiguration));
}

#[test]
fn line_element_flips_y_and_skips_degenerate() {
    let l = Line::new().points(pt2(s(0), s(-50)), pt2(s(0), s(50))).caps_round();
    let el = svg_element(&Primitive::Line(l)).unwrap().unwrap();
    assert_eq!(
        el.shape,
        SvgShape::Line { from: pt2(s(0), s(50)), to: pt2(s(0), s(-50)), cap: LineCap::Round }
    );
    assert_eq!(el.fill, None);
    assert_eq!(el.stroke_width, Some(s(1)));
    assert_eq!(svg_element(&Primitive::Line(Line::new())), Ok(None));
}

#[test]
fn tri_and_quad_elements() {
    let t = Tri::new().points(pt2(s(-80), s(50)), pt2(s(-50), s(-60)), pt2(s(75), s(3)));
    match svg_element(&Primitive::Tri(t)).unwrap().unwrap().shape {
        SvgShape::Tri(c) => assert_eq!(c.b, pt2(s(-50), s(60))),
        _ => panic!("expected a triangle"),
    }
    match svg_element(&Primitive::Quad(Quad::new())).unwrap().unwrap().shape {
        SvgShape::Quad(Corners { a, .. }) => assert_eq!(a, pt2(s(-50), s(50))),
        _ => panic!("expected a quad"),
    }
}

#[test]
fn drained_shapes_become_elements() {
    let mut state = State::new();
    let draw = Draw::new();
    draw.rect(&mut state).color(&mut state, Srgba::rgb(0, 128, 0));
    draw.line(&mut state);
    let cmds = draw.drain_commands(&mut state);
    let mut elements = 0;
    for cmd in &cmds {
        if let DrawCommand::Primitive(p) = cmd {
            if let Ok(Some(_)) = svg_element(p) {
                elements += 1;
            }
        }
    }
    assert_eq!(elements, 1);
}

#[test]
fn zero_size_ellipse_contributes_nothing() {
    let e = Ellipse::new().radius(s(0)).resolution(12);
    assert_eq!(nannou_draw::mesh_renderer::mesh_geometry(&Primitive::Ellipse(e)), Ok(None));
    assert_eq!(svg_element(&Primitive::Ellipse(e)), Ok(None));
    let no_res = Ellipse::new().radius(s(0));
    assert_eq!(nannou_draw::mesh_renderer::mesh_geometry(&Primitive::Ellipse(no_res)), Ok(None));
    let thin = Ellipse::new().w_h(s(0), s(4)).resolution(12);
    assert!(matches!(
        nannou_draw::mesh_renderer::mesh_geometry(&Primitive::Ellipse(thin)),
        Ok(Some(_))
    ));
}
