use lets_draw::command::Command;
use lets_draw::geometry::{Color, Point};
use lets_draw::stack::CommandStack;
use lets_draw::surface::{CanvasProperties, DrawingCanvas, SurfaceOp};
use lets_draw::tool::{CanvasToolHandler, ToolMode};

fn canvases() -> (DrawingCanvas, DrawingCanvas) {
    (
        DrawingCanvas::new(CanvasProperties { name: "drawing-canvas", width: 1500, height: 800 }),
        DrawingCanvas::new(CanvasProperties { name: "preview-canvas", width: 1500, height: 800 }),
    )
}

fn p(x: i32, y: i32) -> Point {
    Point { x, y }
}

#[test]
fn pen_gesture_commits_one_path_with_sampled_points() {
    // A pen gesture over (0,0), (1,1), (2,2) commits exactly one DrawPath
    // holding exactly those three points in order.
    let (mut canvas, mut preview) = canvases();
    let mut stack = CommandStack::new();
    let mut handler = CanvasToolHandler::new(ToolMode::Pen);
    let color = Color(10, 20, 30);
    handler.onmousedown(p(0, 0), color, 2, &mut canvas, &mut stack);
    handler.onmousemove(p(1, 1), color, 2, &mut canvas, &mut preview);
    handler.onmousemove(p(2, 2), color, 2, &mut canvas, &mut preview);
    handler.onmouseup(color, 2, &mut canvas, &mut preview, &mut stack);

    assert_eq!(stack.undo_len(), 1);
    match stack.undo.last().unwrap() {
        Command::DrawPath(path) => {
            assert_eq!(path.points, vec![p(0, 0), p(1, 1), p(2, 2)]);
            assert_eq!(path.color, color);
            assert_eq!(path.line_width, 2);
        }
        other => panic!("expected DrawPath, got {:?}", other),
    }
    assert!(!handler.tool_active);
    assert!(handler.current_path.is_empty());
    assert_eq!(
        canvas.ops(),
        &vec![
            SurfaceOp::BeginPath,
            SurfaceOp::DrawPoint { p: p(0, 0), color, line_width: 2 },
            SurfaceOp::DrawPoint { p: p(1, 1), color, line_width: 2 },
            SurfaceOp::DrawPoint { p: p(2, 2), color, line_width: 2 },
        ]
    );
}

#[test]
fn eraser_gesture_commits_erase_path_in_black() {
    let (mut canvas, mut preview) = canvases();
    let mut stack = CommandStack::new();
    let mut handler = CanvasToolHandler::new(ToolMode::Eraser);
    let color = Color(200, 100, 50);
    handler.onmousedown(p(4, 4), color, 8, &mut canvas, &mut stack);
    handler.onmousemove(p(5, 5), color, 8, &mut canvas, &mut preview);
    handler.onmouseup(color, 8, &mut canvas, &mut preview, &mut stack);

    match stack.undo.last().unwrap() {
        Command::ErasePath(path) => {
            assert_eq!(path.points, vec![p(4, 4), p(5, 5)]);
            assert_eq!(path.color, Color(0, 0, 0));
            assert_eq!(path.line_width, 8);
        }
        other => panic!("expected ErasePath, got {:?}", other),
    }
    assert_eq!(
        canvas.ops(),
        &vec![
            SurfaceOp::BeginPath,
            SurfaceOp::EraseSquare { p: p(4, 4), size: 8 },
            SurfaceOp::EraseSquare { p: p(5, 5), size: 8 },
        ]
    );
}

#[test]
fn line_gesture_previews_then_commits_span() {
    let (mut canvas, mut preview) = canvases();
    let mut stack = CommandStack::new();
    let mut handler = CanvasToolHandler::new(ToolMode::Line);
    let color = Color(1, 2, 3);
    handler.onmousedown(p(10, 10), color, 3, &mut canvas, &mut stack);
    assert!(canvas.ops().is_empty());
    handler.onmousemove(p(20, 15), color, 3, &mut canvas, &mut preview);
    assert_eq!(
        preview.ops(),
        &vec![SurfaceOp::DrawLine { start: p(10, 10), end: p(20, 15), color, line_width: 3 }]
    );
    handler.onmousemove(p(30, 25), color, 3, &mut canvas, &mut preview);
    assert_eq!(
        preview.ops(),
        &vec![SurfaceOp::DrawLine { start: p(10, 10), end: p(30, 25), color, line_width: 3 }]
    );
    handler.onmouseup(color, 3, &mut canvas, &mut preview, &mut stack);

    assert!(preview.ops().is_empty());
    assert_eq!(
        canvas.ops(),
        &vec![SurfaceOp::DrawLine { start: p(10, 10), end: p(30, 25), color, line_width: 3 }]
    );
    match stack.undo.last().unwrap() {
        Command::DrawLine(span) => {
            assert_eq!(span.start_point, p(10, 10));
            assert_eq!(span.end_point, p(30, 25));
            assert_eq!(span.color, color);
            assert_eq!(span.line_width, 3);
        }
        other => panic!("expected DrawLine, got {:?}", other),
    }
}

#[test]
fn rectangle_gesture_commits_span() {
    let (mut canvas, mut preview) = canvases();
    let mut stack = CommandStack::new();
    let mut handler = CanvasToolHandler::new(ToolMode::Rectangle);
    let color = Color(4, 5, 6);
    handler.onmousedown(p(10, 10), color, 1, &mut canvas, &mut stack);
    handler.onmousemove(p(0, 0), color, 1, &mut canvas, &mut preview);
    handler.onmouseup(color, 1, &mut canvas, &mut preview, &mut stack);

    assert_eq!(
        canvas.ops(),
        &vec![SurfaceOp::DrawRect { start: p(10, 10), end: p(0, 0), color, line_width: 1 }]
    );
    assert!(matches!(stack.undo.last(), Some(Command::DrawRectangle(_))));
    assert!(preview.ops().is_empty());
}

#[test]
fn circle_gesture_commits_radius_from_drag() {
    let (mut canvas, mut preview) = canvases();
    let mut stack = CommandStack::new();
    let mut handler = CanvasToolHandler::new(ToolMode::Circle);
    let color = Color(7, 7, 7);
    handler.onmousedown(p(0, 0), color, 1, &mut canvas, &mut stack);
    handler.onmousemove(p(3, 4), color, 1, &mut canvas, &mut preview);
    assert_eq!(
        preview.ops(),
        &vec![SurfaceOp::DrawCircle { center: p(0, 0), radius: 5, color, line_width: 1 }]
    );
    handler.onmouseup(color, 1, &mut canvas, &mut preview, &mut stack);
    assert_eq!(
        canvas.ops(),
        &vec![SurfaceOp::DrawCircle { center: p(0, 0), radius: 5, color, line_width: 1 }]
    );
    assert!(matches!(stack.undo.last(), Some(Command::DrawCircle(_))));
}

#[test]
fn reserved_tool_resolves_to_empty_behavior() {
    let (mut canvas, mut preview) = canvases();
    let mut stack = CommandStack::new();
    let mut handler = CanvasToolHandler::new(ToolMode::Polygon);
    let color = Color(0, 0, 0);
    handler.onmousedown(p(1, 1), color, 1, &mut canvas, &mut stack);
    handler.onmousemove(p(2, 2), color, 1, &mut canvas, &mut preview);
    handler.onmouseup(color, 1, &mut canvas, &mut preview, &mut stack);
    assert!(canvas.ops().is_empty());
    assert!(preview.ops().is_empty());
    assert_eq!(stack.undo_len(), 0);
}

#[test]
fn move_and_release_without_active_gesture_are_ignored() {
    let (mut canvas, mut preview) = canvases();
    let mut stack = CommandStack::new();
    let mut handler = CanvasToolHandler::new(ToolMode::Pen);
    let color = Color(1, 1, 1);
    handler.onmousemove(p(2, 2), color, 1, &mut canvas, &mut preview);
    handler.onmouseup(color, 1, &mut canvas, &mut preview, &mut stack);
    assert!(canvas.ops().is_empty());
    assert!(handler.current_path.is_empty());
    assert_eq!(stack.undo_len(), 0);
}

#[test]
fn pointer_down_invalidates_redo() {
    // A new gesture clears the redo history at its start.
    let (mut canvas, mut preview) = canvases();
    let mut stack = CommandStack::new();
    let mut handler = CanvasToolHandler::new(ToolMode::Pen);
    let color = Color(1, 1, 1);
    handler.onmousedown(p(0, 0), color, 1, &mut canvas, &mut stack);
    handler.onmouseup(color, 1, &mut canvas, &mut preview, &mut stack);
    stack.undo(&mut canvas);
    assert_eq!(stack.redo_len(), 1);
    handler.onmousedown(p(5, 5), color, 1, &mut canvas, &mut stack);
    assert_eq!(stack.redo_len(), 0);
}
