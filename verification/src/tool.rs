//! The tool dispatcher: a state machine that turns raw pointer events into
//! live drawing, previews, and — on release — exactly one committed command.
//! Dispatch is total over the tool modes; a reserved tool resolves to an
//! explicit no-op at every phase.

use vstd::prelude::*;

use crate::command::{Command, CommandV, Path, PathV, ShapeProperties};
use crate::geometry::{Color, Point};
use crate::stack::{push_spec, CommandStack, StackV};
use crate::surface::{circle_radius, DrawingCanvas, SurfaceOp};

verus! {

/// The drawing tool the next gesture will use. `Polygon` is reserved and
/// unimplemented: the dispatcher defines an explicit empty behavior for it.
#[derive(Clone, Copy, Debug, PartialEq, Eq, Structural)]
pub enum ToolMode {
    Pen,
    Eraser,
    Line,
    Circle,
    Rectangle,
    Polygon,
}

/// The tool dispatcher: the active tool together with the per-gesture
/// transient state. The transient state lives only for the duration of one
/// pointer-down→pointer-up gesture and is cleared on commit; it is not
/// undoable.
#[derive(Debug)]
pub struct CanvasToolHandler {
    pub tool_mode: ToolMode,
    pub tool_active: bool,
    pub current_point: Point,
    pub point_down: Point,
    pub current_path: Vec<Point>,
}

/// The mathematical value of a `CanvasToolHandler`.
pub struct HandlerV {
    pub tool_mode: ToolMode,
    pub tool_active: bool,
    pub current_point: Point,
    pub point_down: Point,
    pub current_path: Seq<Point>,
}

impl View for CanvasToolHandler {
    type V = HandlerV;

    open spec fn view(&self) -> HandlerV {
        HandlerV {
            tool_mode: self.tool_mode,
            tool_active: self.tool_active,
            current_point: self.current_point,
            point_down: self.point_down,
            current_path: self.current_path@,
        }
    }
}

/// The transient state after a pointer-down at `p`: the gesture becomes
/// active, pen and eraser start their sampled path, shape tools record the
/// anchor corner.
pub open spec fn down_state_spec(h: HandlerV, p: Point) -> HandlerV {
    HandlerV {
        tool_mode: h.tool_mode,
        tool_active: true,
        current_point: p,
        point_down: match h.tool_mode {
            ToolMode::Line | ToolMode::Circle | ToolMode::Rectangle => p,
            _ => h.point_down,
        },
        current_path: match h.tool_mode {
            ToolMode::Pen | ToolMode::Eraser => h.current_path.push(p),
            _ => h.current_path,
        },
    }
}

/// What a pointer-down draws on the committed surface: pen and eraser start
/// a fresh stroke at `p`; shape tools draw nothing until release.
pub open spec fn down_surface_ops(h: HandlerV, p: Point, color: Color, line_width: u32) -> Seq<
    SurfaceOp,
> {
    match h.tool_mode {
        ToolMode::Pen => seq![
            SurfaceOp::BeginPath,
            SurfaceOp::DrawPoint { p, color, line_width },
        ],
        ToolMode::Eraser => seq![
            SurfaceOp::BeginPath,
            SurfaceOp::EraseSquare { p, size: line_width },
        ],
        _ => Seq::empty(),
    }
}

/// The transient state after a pointer-move to `p`: ignored while no gesture
/// is active; otherwise the current point advances and pen and eraser sample
/// `p` into their path.
pub open spec fn move_state_spec(h: HandlerV, p: Point) -> HandlerV {
    if !h.tool_active {
        h
    } else {
        HandlerV {
            tool_mode: h.tool_mode,
            tool_active: h.tool_active,
            current_point: p,
            point_down: h.point_down,
            current_path: match h.tool_mode {
                ToolMode::Pen | ToolMode::Eraser => h.current_path.push(p),
                _ => h.current_path,
            },
        }
    }
}

/// What a pointer-move draws on the committed surface: pen and eraser
/// extend their stroke incrementally; shape tools leave it untouched until
/// release.
pub open spec fn move_surface_ops(h: HandlerV, p: Point, color: Color, line_width: u32) -> Seq<
    SurfaceOp,
> {
    if !h.tool_active {
        Seq::empty()
    } else {
        match h.tool_mode {
            ToolMode::Pen => seq![SurfaceOp::DrawPoint { p, color, line_width }],
            ToolMode::Eraser => seq![SurfaceOp::EraseSquare { p, size: line_width }],
            _ => Seq::empty(),
        }
    }
}

/// The preview surface after a pointer-move to `p`: shape tools clear it
/// and draw the shape live from the anchor to `p`; every other tool leaves
/// it alone.
pub open spec fn move_preview_spec(
    h: HandlerV,
    p: Point,
    color: Color,
    line_width: u32,
    preview: Seq<SurfaceOp>,
) -> Seq<SurfaceOp> {
    if !h.tool_active {
        preview
    } else {
        match h.tool_mode {
            ToolMode::Line => seq![
                SurfaceOp::DrawLine { start: h.point_down, end: p, color, line_width },
            ],
            ToolMode::Circle => seq![
                SurfaceOp::DrawCircle {
                    center: h.point_down,
                    radius: circle_radius(h.point_down, p) as u64,
                    color,
                    line_width,
                },
            ],
            ToolMode::Rectangle => seq![
                SurfaceOp::DrawRect { start: h.point_down, end: p, color, line_width },
            ],
            _ => preview,
        }
    }
}

/// The transient state after a pointer-up: ignored while no gesture is
/// active; otherwise the gesture ends and pen and eraser reset their
/// sampled path.
pub open spec fn up_state_spec(h: HandlerV) -> HandlerV {
    if !h.tool_active {
        h
    } else {
        HandlerV {
            tool_mode: h.tool_mode,
            tool_active: false,
            current_point: h.current_point,
            point_down: h.point_down,
            current_path: match h.tool_mode {
                ToolMode::Pen | ToolMode::Eraser => Seq::empty(),
                _ => h.current_path,
            },
        }
    }
}

/// The command a pointer-up commits, if any: pen and eraser commit their
/// sampled path, shape tools the span from the anchor to the current point;
/// the reserved tool commits nothing, and so does a release with no active
/// gesture.
pub open spec fn up_commit_spec(h: HandlerV, color: Color, line_width: u32) -> Option<CommandV> {
    if !h.tool_active {
        None
    } else {
        match h.tool_mode {
            ToolMode::Pen => Some(
                CommandV::DrawPath(PathV { points: h.current_path, color, line_width }),
            ),
            ToolMode::Eraser => Some(
                CommandV::ErasePath(
                    PathV { points: h.current_path, color: Color(0, 0, 0), line_width },
                ),
            ),
            ToolMode::Line => Some(
                CommandV::DrawLine(
                    ShapeProperties {
                        start_point: h.point_down,
                        end_point: h.current_point,
                        color,
                        line_width,
                    },
                ),
            ),
            ToolMode::Circle => Some(
                CommandV::DrawCircle(
                    ShapeProperties {
                        start_point: h.point_down,
                        end_point: h.current_point,
                        color,
                        line_width,
                    },
                ),
            ),
            ToolMode::Rectangle => Some(
                CommandV::DrawRectangle(
                    ShapeProperties {
                        start_point: h.point_down,
                        end_point: h.current_point,
                        color,
                        line_width,
                    },
                ),
            ),
            ToolMode::Polygon => None,
        }
    }
}

/// The command stack after a pointer-up: the committed command is pushed,
/// or nothing happens when there is none to commit.
pub open spec fn up_stack_spec(h: HandlerV, color: Color, line_width: u32, s: StackV) -> StackV {
    match up_commit_spec(h, color, line_width) {
        Some(c) => push_spec(s, c),
        None => s,
    }
}

/// What a pointer-up draws on the committed surface: shape tools stamp the
/// final shape; pen and eraser have already drawn incrementally.
pub open spec fn up_surface_ops(h: HandlerV, color: Color, line_width: u32) -> Seq<SurfaceOp> {
    if !h.tool_active {
        Seq::empty()
    } else {
        match h.tool_mode {
            ToolMode::Line => seq![
                SurfaceOp::DrawLine {
                    start: h.point_down,
                    end: h.current_point,
                    color,
                    line_width,
                },
            ],
            ToolMode::Circle => seq![
                SurfaceOp::DrawCircle {
                    center: h.point_down,
                    radius: circle_radius(h.point_down, h.current_point) as u64,
                    color,
                    line_width,
                },
            ],
            ToolMode::Rectangle => seq![
                SurfaceOp::DrawRect {
                    start: h.point_down,
                    end: h.current_point,
                    color,
                    line_width,
                },
            ],
            _ => Seq::empty(),
        }
    }
}

/// The preview surface after a pointer-up: shape tools discard their live
/// preview; every other tool leaves it alone.
pub open spec fn up_preview_spec(h: HandlerV, preview: Seq<SurfaceOp>) -> Seq<SurfaceOp> {
    if h.tool_active && (h.tool_mode is Line || h.tool_mode is Circle
        || h.tool_mode is Rectangle) {
        Seq::empty()
    } else {
        preview
    }
}

impl CanvasToolHandler {
    /// A dispatcher for the given tool, idle, with empty transient state.
    pub fn new(tool_mode: ToolMode) -> (handler: CanvasToolHandler)
        ensures
            handler@ == (HandlerV {
                tool_mode,
                tool_active: false,
                current_point: Point { x: 0, y: 0 },
                point_down: Point { x: 0, y: 0 },
                current_path: Seq::empty(),
            }),
    {
        let handler = CanvasToolHandler {
            tool_mode,
            tool_active: false,
            current_point: Point::zero(),
            point_down: Point::zero(),
            current_path: Vec::new(),
        };
        proof {
            assert(handler@.current_path =~= Seq::<Point>::empty());
        }
        handler
    }

    /// Handles a pointer-down at `current_point`: the gesture begins, the
    /// redo history is invalidated, and the tool's down-behavior runs — pen
    /// and eraser start drawing at once, shape tools only record the anchor.
    pub fn onmousedown(
        &mut self,
        current_point: Point,
        color: Color,
        line_width: u32,
        drawing_canvas: &mut DrawingCanvas,
        commands: &mut CommandStack,
    )
        requires
            line_width >= 1,
        ensures
            final(self)@ == down_state_spec(old(self)@, current_point),
            final(drawing_canvas)@ == old(drawing_canvas)@ + down_surface_ops(
                old(self)@,
                current_point,
                color,
                line_width,
            ),
            final(drawing_canvas).properties == old(drawing_canvas).properties,
            final(commands)@.undo == old(commands)@.undo,
            final(commands)@.redo == Seq::<CommandV>::empty(),
    {
        self.tool_active = true;
        self.current_point = current_point;
        commands.clear_redo();
        match self.tool_mode {
            ToolMode::Pen => {
                self.current_path.push(current_point);
                drawing_canvas.begin_path();
                drawing_canvas.draw_point(&current_point, color, line_width);
            }
            ToolMode::Eraser => {
                self.current_path.push(current_point);
                drawing_canvas.begin_path();
                drawing_canvas.erase(current_point, line_width);
            }
            ToolMode::Line | ToolMode::Circle | ToolMode::Rectangle => {
                self.point_down = current_point;
            }
            ToolMode::Polygon => {}
        }
        proof {
            assert(drawing_canvas@ =~= old(drawing_canvas)@ + down_surface_ops(
                old(self)@,
                current_point,
                color,
                line_width,
            ));
        }
    }

    /// Handles a pointer-move to `current_point`, ignored while no gesture
    /// is active: pen and eraser draw incrementally on the committed
    /// surface, shape tools redraw their live preview from the anchor.
    pub fn onmousemove(
        &mut self,
        current_point: Point,
        color: Color,
        line_width: u32,
        drawing_canvas: &mut DrawingCanvas,
        preview_canvas: &mut DrawingCanvas,
    )
        requires
            line_width >= 1,
        ensures
            final(self)@ == move_state_spec(old(self)@, current_point),
            final(drawing_canvas)@ == old(drawing_canvas)@ + move_surface_ops(
                old(self)@,
                current_point,
                color,
                line_width,
            ),
            final(preview_canvas)@ == move_preview_spec(
                old(self)@,
                current_point,
                color,
                line_width,
                old(preview_canvas)@,
            ),
            final(drawing_canvas).properties == old(drawing_canvas).properties,
            final(preview_canvas).properties == old(preview_canvas).properties,
    {
        if self.tool_active {
            self.current_point = current_point;
            match self.tool_mode {
                ToolMode::Pen => {
                    self.current_path.push(current_point);
                    drawing_canvas.draw_point(&current_point, color, line_width);
                }
                ToolMode::Eraser => {
                    self.current_path.push(current_point);
                    drawing_canvas.erase(current_point, line_width);
                }
                ToolMode::Line => {
                    preview_canvas.clear_canvas();
                    preview_canvas.draw_line(&self.point_down, &current_point, &color, line_width);
                }
                ToolMode::Circle => {
                    preview_canvas.clear_canvas();
                    preview_canvas.draw_circle(
                        &self.point_down,
                        &current_point,
                        &color,
                        line_width,
                    );
                }
                ToolMode::Rectangle => {
                    preview_canvas.clear_canvas();
                    preview_canvas.draw_rect(&self.point_down, &current_point, &color, line_width);
                }
                ToolMode::Polygon => {}
            }
        }
        proof {
            assert(drawing_canvas@ =~= old(drawing_canvas)@ + move_surface_ops(
                old(self)@,
                current_point,
                color,
                line_width,
            ));
            assert(preview_canvas@ =~= move_preview_spec(
                old(self)@,
                current_point,
                color,
                line_width,
                old(preview_canvas)@,
            ));
        }
    }

    /// Handles a pointer-up (or a pointer leaving the canvas, which commits
    /// identically), ignored while no gesture is active: the gesture ends,
    /// the tool's up-behavior commits exactly one command to the stack, and
    /// the transient path is reset. Shape tools also discard their preview
    /// and stamp the final shape on the committed surface.
    pub fn onmouseup(
        &mut self,
        color: Color,
        line_width: u32,
        drawing_canvas: &mut DrawingCanvas,
        preview_canvas: &mut DrawingCanvas,
        commands: &mut CommandStack,
    )
        requires
            line_width >= 1,
        ensures
            final(self)@ == up_state_spec(old(self)@),
            final(commands)@ == up_stack_spec(old(self)@, color, line_width, old(commands)@),
            final(drawing_canvas)@ == old(drawing_canvas)@ + up_surface_ops(
                old(self)@,
                color,
                line_width,
            ),
            final(preview_canvas)@ == up_preview_spec(old(self)@, old(preview_canvas)@),
            final(drawing_canvas).properties == old(drawing_canvas).properties,
            final(preview_canvas).properties == old(preview_canvas).properties,
    {
        if self.tool_active {
            self.tool_active = false;
            match self.tool_mode {
                ToolMode::Pen => {
                    let mut points: Vec<Point> = Vec::new();
                    core::mem::swap(&mut points, &mut self.current_path);
                    commands.push(Command::DrawPath(Path { points, color, line_width }));
                }
                ToolMode::Eraser => {
                    let mut points: Vec<Point> = Vec::new();
                    core::mem::swap(&mut points, &mut self.current_path);
                    commands.push(
                        Command::ErasePath(Path { points, color: Color(0, 0, 0), line_width }),
                    );
                }
                ToolMode::Line => {
                    preview_canvas.clear_canvas();
                    commands.push(
                        Command::DrawLine(
                            ShapeProperties {
                                start_point: self.point_down,
                                end_point: self.current_point,
                                color,
                                line_width,
                            },
                        ),
                    );
                    drawing_canvas.draw_line(
                        &self.point_down,
                        &self.current_point,
                        &color,
                        line_width,
                    );
                }
                ToolMode::Circle => {
                    preview_canvas.clear_canvas();
                    commands.push(
                        Command::DrawCircle(
                            ShapeProperties {
                                start_point: self.point_down,
                                end_point: self.current_point,
                                color,
                                line_width,
                            },
                        ),
                    );
                    drawing_canvas.draw_circle(
                        &self.point_down,
                        &self.current_point,
                        &color,
                        line_width,
                    );
                }
                ToolMode::Rectangle => {
                    preview_canvas.clear_canvas();
                    commands.push(
                        Command::DrawRectangle(
                            ShapeProperties {
                                start_point: self.point_down,
                                end_point: self.current_point,
                                color,
                                line_width,
                            },
                        ),
                    );
                    drawing_canvas.draw_rect(
                        &self.point_down,
                        &self.current_point,
                        &color,
                        line_width,
                    );
                }
                ToolMode::Polygon => {}
            }
        }
        proof {
            assert(self@.current_path =~= up_state_spec(old(self)@).current_path);
            assert(drawing_canvas@ =~= old(drawing_canvas)@ + up_surface_ops(
                old(self)@,
                color,
                line_width,
            ));
            assert(preview_canvas@ =~= up_preview_spec(old(self)@, old(preview_canvas)@));
        }
    }
}

} // verus!
