use shader_viewer::pointer::{PointerState, Ratio, WindowSize};

fn pointer(x: i32, w: u32, y: i32, h: u32) -> PointerState {
    PointerState { x_norm: Ratio { num: x, den: w }, y_norm: Ratio { num: y, den: h } }
}

fn value(r: Ratio) -> f64 {
    f64::from(r.num) / f64::from(r.den)
}

#[test]
fn origin_is_zero_on_both_axes() {
    let p = PointerState::origin();
    assert_eq!(p, pointer(0, 1, 0, 1));
    assert_eq!(value(p.x_norm), 0.0);
    assert_eq!(value(p.y_norm), 0.0);
}

#[test]
fn window_with_area_is_a_divisor() {
    assert!(WindowSize { width: 1, height: 1 }.is_divisor());
    assert!(WindowSize { width: 200, height: 100 }.is_divisor());
}

#[test]
fn window_without_area_is_no_divisor() {
    assert!(!WindowSize { width: 0, height: 100 }.is_divisor());
    assert!(!WindowSize { width: 200, height: 0 }.is_divisor());
    assert!(!WindowSize { width: 0, height: 0 }.is_divisor());
}

#[test]
fn normalize_divides_pixels_by_extent() {
    let p = PointerState::normalize(50, 50, WindowSize { width: 200, height: 100 });
    assert_eq!(p, Some(pointer(50, 200, 50, 100)));
    let p = p.unwrap();
    assert_eq!(value(p.x_norm), 0.25);
    assert_eq!(value(p.y_norm), 0.5);
}

#[test]
fn normalize_has_no_result_without_area() {
    assert_eq!(PointerState::normalize(50, 50, WindowSize { width: 0, height: 100 }), None);
    assert_eq!(PointerState::normalize(50, 50, WindowSize { width: 200, height: 0 }), None);
    assert_eq!(PointerState::normalize(0, 0, WindowSize { width: 0, height: 0 }), None);
}

#[test]
fn normalize_does_not_clamp() {
    let size = WindowSize { width: 200, height: 100 };
    let p = PointerState::normalize(-20, 250, size).unwrap();
    assert_eq!(p, pointer(-20, 200, 250, 100));
    assert_eq!(value(p.x_norm), -0.1);
    assert_eq!(value(p.y_norm), 2.5);
}

#[test]
fn normalize_at_the_borders_is_zero_and_one() {
    let size = WindowSize { width: 640, height: 480 };
    let p = PointerState::normalize(0, 480, size).unwrap();
    assert_eq!(value(p.x_norm), 0.0);
    assert_eq!(value(p.y_norm), 1.0);
}

#[test]
fn record_move_replaces_the_position() {
    let mut p = PointerState::origin();
    p.record_move(50, 50, WindowSize { width: 200, height: 100 });
    assert_eq!(p, pointer(50, 200, 50, 100));
    p.record_move(10, 20, WindowSize { width: 40, height: 80 });
    assert_eq!(p, pointer(10, 40, 20, 80));
}

#[test]
fn record_move_without_area_keeps_the_position() {
    let mut p = pointer(50, 200, 50, 100);
    p.record_move(7, 9, WindowSize { width: 0, height: 100 });
    assert_eq!(p, pointer(50, 200, 50, 100));
    p.record_move(7, 9, WindowSize { width: 200, height: 0 });
    assert_eq!(p, pointer(50, 200, 50, 100));
    p.record_move(7, 9, WindowSize { width: 0, height: 0 });
    assert_eq!(p, pointer(50, 200, 50, 100));
}
