use lets_draw::command::{Command, Path, ShapeProperties};
use lets_draw::geometry::{Color, Point};
use lets_draw::surface::{distance, CanvasProperties, DrawingCanvas, SurfaceOp};

fn drawing_canvas() -> DrawingCanvas {
    DrawingCanvas::new(CanvasProperties { name: "drawing-canvas", width: 1500, height: 800 })
}

#[test]
fn draw_path_strokes_each_point_in_order() {
    let mut canvas = drawing_canvas();
    let path = Path {
        points: vec![Point { x: 1, y: 2 }, Point { x: 3, y: 4 }],
        color: Color(9, 8, 7),
        line_width: 5,
    };
    Command::DrawPath(path).execute(&mut canvas);
    assert_eq!(
        canvas.ops(),
        &vec![
            SurfaceOp::BeginPath,
            SurfaceOp::DrawPoint { p: Point { x: 1, y: 2 }, color: Color(9, 8, 7), line_width: 5 },
            SurfaceOp::DrawPoint { p: Point { x: 3, y: 4 }, color: Color(9, 8, 7), line_width: 5 },
        ]
    );
}

#[test]
fn erase_path_clears_a_square_per_point() {
    let mut canvas = drawing_canvas();
    let path = Path {
        points: vec![Point { x: 1, y: 2 }, Point { x: 3, y: 4 }],
        color: Color(0, 0, 0),
        line_width: 6,
    };
    Command::ErasePath(path).execute(&mut canvas);
    assert_eq!(
        canvas.ops(),
        &vec![
            SurfaceOp::EraseSquare { p: Point { x: 1, y: 2 }, size: 6 },
            SurfaceOp::EraseSquare { p: Point { x: 3, y: 4 }, size: 6 },
        ]
    );
}

#[test]
fn erase_canvas_clears_everything_drawn_before() {
    let mut canvas = drawing_canvas();
    canvas.draw_line(&Point { x: 0, y: 0 }, &Point { x: 9, y: 9 }, &Color(0, 0, 0), 1);
    Command::EraseCanvas.execute(&mut canvas);
    assert!(canvas.ops().is_empty());
}

#[test]
fn execute_commands_replays_in_order_through_an_erase() {
    let mut canvas = drawing_canvas();
    let span = ShapeProperties {
        start_point: Point { x: 1, y: 1 },
        end_point: Point { x: 2, y: 2 },
        color: Color(1, 1, 1),
        line_width: 1,
    };
    let commands = vec![
        Command::DrawLine(span),
        Command::EraseCanvas,
        Command::DrawRectangle(span),
    ];
    canvas.execute_commands(&commands);
    assert_eq!(
        canvas.ops(),
        &vec![SurfaceOp::DrawRect {
            start: Point { x: 1, y: 1 },
            end: Point { x: 2, y: 2 },
            color: Color(1, 1, 1),
            line_width: 1,
        }]
    );
}

#[test]
fn circle_uses_euclidean_distance_as_radius() {
    // The 3-4-5 triangle: a drag from (0,0) to (3,4) gives radius 5.
    let mut canvas = drawing_canvas();
    canvas.draw_circle(&Point { x: 0, y: 0 }, &Point { x: 3, y: 4 }, &Color(0, 0, 0), 1);
    assert_eq!(
        canvas.ops(),
        &vec![SurfaceOp::DrawCircle {
            center: Point { x: 0, y: 0 },
            radius: 5,
            color: Color(0, 0, 0),
            line_width: 1,
        }]
    );
}

#[test]
fn distance_rounds_down_and_handles_negatives() {
    assert_eq!(distance(&Point { x: 0, y: 0 }, &Point { x: 0, y: 0 }), 0);
    assert_eq!(distance(&Point { x: 0, y: 0 }, &Point { x: 1, y: 1 }), 1);
    assert_eq!(distance(&Point { x: 0, y: 0 }, &Point { x: -3, y: -4 }), 5);
    assert_eq!(distance(&Point { x: -3, y: -4 }, &Point { x: 3, y: 4 }), 10);
    assert_eq!(distance(&Point { x: 0, y: 0 }, &Point { x: 0, y: 7 }), 7);
}

#[test]
fn rect_negative_extents_cover_the_same_region() {
    // drawRect(start=(10,10), end=(0,0)) is equivalent to
    // drawRect(start=(0,0), end=(10,10)): negative extents normalize.
    let mut canvas = drawing_canvas();
    canvas.draw_rect(&Point { x: 10, y: 10 }, &Point { x: 0, y: 0 }, &Color(0, 0, 0), 1);
    canvas.draw_rect(&Point { x: 0, y: 0 }, &Point { x: 10, y: 10 }, &Color(0, 0, 0), 1);
    let normalized: Vec<(i32, i32, i32, i32)> = canvas
        .ops()
        .iter()
        .map(|op| match op {
            SurfaceOp::DrawRect { start, end, .. } => (
                start.x.min(end.x),
                start.y.min(end.y),
                start.x.max(end.x),
                start.y.max(end.y),
            ),
            _ => panic!("expected only rectangles"),
        })
        .collect();
    assert_eq!(normalized[0], normalized[1]);
    assert_eq!(normalized[0], (0, 0, 10, 10));
}
