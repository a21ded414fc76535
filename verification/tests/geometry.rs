use level_meter::geometry::{
    Color, FillCircle, FillRect, GeometryMapper, Orientation, Rect, Shape, DEFAULT_EPSILON,
    PEAK_STRIP_THICKNESS,
};

const BAR: Color = Color { red: 255, green: 255, blue: 0, alpha: 255 };
const PEAK: Color = Color { red: 255, green: 0, blue: 0, alpha: 255 };

fn mapper() -> GeometryMapper {
    GeometryMapper::new(BAR, PEAK)
}

fn case_box() -> Rect {
    Rect { x: 0, y: 0, w: 10, h: 100 }
}

#[test]
fn new_uses_default_epsilon() {
    let m = mapper();
    assert_eq!(m.epsilon, DEFAULT_EPSILON);
    assert_eq!(DEFAULT_EPSILON, 1_000);
    assert_eq!(m.bar_color, BAR);
    assert_eq!(m.peak_color, PEAK);
}

#[test]
fn down_to_up_bar_rect() {
    // position 0.5 on a 10 x 100 box: bar {x: 0, y: 50, w: 10, h: 50} px.
    let plan = mapper().map(500_000, 750_000, Orientation::DownToUp, case_box());
    assert_eq!(plan.shapes.len(), 2);
    assert_eq!(
        plan.shapes[0],
        Shape::Rect(FillRect {
            x: 0,
            y: 50_000_000,
            w: 10_000_000,
            h: 50_000_000,
            color: BAR,
        })
    );
}

#[test]
fn down_to_up_peak_strip() {
    // peak 0.75: a 2 px strip at y + (1 - peak) * h = 25 px.
    let plan = mapper().map(500_000, 750_000, Orientation::DownToUp, case_box());
    assert_eq!(
        plan.shapes[1],
        Shape::Rect(FillRect {
            x: 0,
            y: 25_000_000,
            w: 10_000_000,
            h: PEAK_STRIP_THICKNESS as i64,
            color: PEAK,
        })
    );
}

#[test]
fn right_to_left_bar_rect() {
    // position 0.25 on the same box: bar {x: 7.5, y: 0, w: 2.5, h: 100} px.
    let plan = mapper().map(250_000, 750_000, Orientation::RightToLeft, case_box());
    assert_eq!(
        plan.shapes[0],
        Shape::Rect(FillRect {
            x: 7_500_000,
            y: 0,
            w: 2_500_000,
            h: 100_000_000,
            color: BAR,
        })
    );
    assert_eq!(
        plan.shapes[1],
        Shape::Rect(FillRect {
            x: 2_500_000,
            y: 0,
            w: PEAK_STRIP_THICKNESS as i64,
            h: 100_000_000,
            color: PEAK,
        })
    );
}

#[test]
fn up_to_down_shapes() {
    let plan = mapper().map(500_000, 750_000, Orientation::UpToDown, case_box());
    assert_eq!(
        plan.shapes[0],
        Shape::Rect(FillRect {
            x: 0,
            y: 0,
            w: 10_000_000,
            h: 50_000_000,
            color: BAR,
        })
    );
    assert_eq!(
        plan.shapes[1],
        Shape::Rect(FillRect {
            x: 0,
            y: 75_000_000,
            w: 10_000_000,
            h: PEAK_STRIP_THICKNESS as i64,
            color: PEAK,
        })
    );
}

#[test]
fn left_to_right_shapes() {
    let b = Rect { x: 20, y: 10, w: 200, h: 30 };
    let plan = mapper().map(500_000, 750_000, Orientation::LeftToRight, b);
    assert_eq!(
        plan.shapes[0],
        Shape::Rect(FillRect {
            x: 20_000_000,
            y: 10_000_000,
            w: 100_000_000,
            h: 30_000_000,
            color: BAR,
        })
    );
    assert_eq!(
        plan.shapes[1],
        Shape::Rect(FillRect {
            x: 20_000_000 + 150_000_000,
            y: 10_000_000,
            w: PEAK_STRIP_THICKNESS as i64,
            h: 30_000_000,
            color: PEAK,
        })
    );
}

#[test]
fn radial_circle_centered_with_scaled_radius() {
    let b = Rect { x: 0, y: 0, w: 100, h: 50 };
    let plan = mapper().map(500_000, 750_000, Orientation::Radial, b);
    assert_eq!(plan.shapes.len(), 1);
    assert_eq!(
        plan.shapes[0],
        Shape::Circle(FillCircle {
            center_x: 50_000_000,
            center_y: 25_000_000,
            radius: 12_500_000,
            color: BAR,
        })
    );
}

#[test]
fn radial_suppressed_below_epsilon() {
    let plan = mapper().map(500, 750_000, Orientation::Radial, case_box());
    assert!(plan.shapes.is_empty());
}

#[test]
fn epsilon_suppresses_bar() {
    // position 0.0005 < epsilon 0.001: no bar shape, only the peak strip.
    let plan = mapper().map(500, 750_000, Orientation::DownToUp, case_box());
    assert_eq!(plan.shapes.len(), 1);
    assert_eq!(
        plan.shapes[0],
        Shape::Rect(FillRect {
            x: 0,
            y: 25_000_000,
            w: 10_000_000,
            h: PEAK_STRIP_THICKNESS as i64,
            color: PEAK,
        })
    );
}

#[test]
fn epsilon_boundary_emits_bar() {
    // At exactly epsilon the bar is drawn.
    let plan = mapper().map(1_000, 750_000, Orientation::DownToUp, case_box());
    assert_eq!(plan.shapes.len(), 2);
}

#[test]
fn epsilon_is_configurable() {
    let mut m = mapper();
    m.epsilon = 600_000;
    let plan = m.map(500_000, 750_000, Orientation::DownToUp, case_box());
    assert_eq!(plan.shapes.len(), 1);
}

#[test]
fn map_is_idempotent() {
    // A pure function: identical inputs give bit-identical plans.
    let m = mapper();
    let a = m.map(432_100, 765_432, Orientation::LeftToRight, case_box());
    let b = m.map(432_100, 765_432, Orientation::LeftToRight, case_box());
    assert_eq!(a, b);
    let c = m.map(432_100, 765_432, Orientation::Radial, case_box());
    let d = m.map(432_100, 765_432, Orientation::Radial, case_box());
    assert_eq!(c, d);
}

#[test]
fn colors_pass_through_unmodified() {
    let odd_bar = Color { red: 1, green: 2, blue: 3, alpha: 4 };
    let odd_peak = Color { red: 5, green: 6, blue: 7, alpha: 8 };
    let m = GeometryMapper::new(odd_bar, odd_peak);
    let plan = m.map(500_000, 750_000, Orientation::DownToUp, case_box());
    match (&plan.shapes[0], &plan.shapes[1]) {
        (Shape::Rect(bar), Shape::Rect(strip)) => {
            assert_eq!(bar.color, odd_bar);
            assert_eq!(strip.color, odd_peak);
        }
        _ => panic!("bar orientations emit rectangles"),
    }
}

#[test]
fn overshoot_position_exceeds_box() {
    // A position beyond full scale is not clamped: the bar sticks out of
    // the box (negative y for the bottom-up orientation).
    let plan = mapper().map(2_000_000, 750_000, Orientation::DownToUp, case_box());
    match &plan.shapes[0] {
        Shape::Rect(bar) => {
            assert_eq!(bar.y, -100_000_000);
            assert_eq!(bar.h, 200_000_000);
        }
        _ => panic!("bar orientations emit rectangles"),
    }
}
