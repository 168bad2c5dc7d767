//! The command model: one immutable record per completed drawing action, and
//! the replay semantics that execute a command, or a whole history of
//! commands, against a rendering surface.

use vstd::prelude::*;

use crate::geometry::{Color, Point};
use crate::surface::{circle_radius, DrawingCanvas, SurfaceOp};

verus! {

/// A freehand pen or eraser stroke: the points in the order they were
/// sampled, with the stroke style.
#[derive(Clone, Debug)]
pub struct Path {
    pub points: Vec<Point>,
    pub color: Color,
    pub line_width: u32,
}

/// The mathematical value of a `Path`.
pub struct PathV {
    pub points: Seq<Point>,
    pub color: Color,
    pub line_width: u32,
}

impl View for Path {
    type V = PathV;

    open spec fn view(&self) -> PathV {
        PathV { points: self.points@, color: self.color, line_width: self.line_width }
    }
}

/// A line, rectangle or circle defined by two corner or endpoint clicks.
#[derive(Clone, Copy, Debug, PartialEq, Eq, Structural)]
pub struct ShapeProperties {
    pub start_point: Point,
    pub end_point: Point,
    pub color: Color,
    pub line_width: u32,
}

/// One completed drawing action. Commands are created exactly once, at
/// gesture completion, and are immutable thereafter; they are the only
/// persisted record of drawing history.
#[derive(Clone, Debug)]
pub enum Command {
    DrawPath(Path),
    ErasePath(Path),
    DrawLine(ShapeProperties),
    DrawCircle(ShapeProperties),
    DrawRectangle(ShapeProperties),
    EraseCanvas,
}

/// The mathematical value of a `Command`.
pub enum CommandV {
    DrawPath(PathV),
    ErasePath(PathV),
    DrawLine(ShapeProperties),
    DrawCircle(ShapeProperties),
    DrawRectangle(ShapeProperties),
    EraseCanvas,
}

impl View for Command {
    type V = CommandV;

    open spec fn view(&self) -> CommandV {
        match self {
            Command::DrawPath(p) => CommandV::DrawPath(p@),
            Command::ErasePath(p) => CommandV::ErasePath(p@),
            Command::DrawLine(s) => CommandV::DrawLine(*s),
            Command::DrawCircle(s) => CommandV::DrawCircle(*s),
            Command::DrawRectangle(s) => CommandV::DrawRectangle(*s),
            Command::EraseCanvas => CommandV::EraseCanvas,
        }
    }
}

/// The values of a sequence of commands.
pub open spec fn view_commands(cs: Seq<Command>) -> Seq<CommandV> {
    cs.map_values(|c: Command| c@)
}

/// The surface operations a pen stroke replays to: one fresh path, then one
/// stroked segment per sampled point, in order.
pub open spec fn path_draw_ops(p: PathV) -> Seq<SurfaceOp> {
    seq![SurfaceOp::BeginPath] + Seq::new(
        p.points.len(),
        |i: int| SurfaceOp::DrawPoint { p: p.points[i], color: p.color, line_width: p.line_width },
    )
}

/// The surface operations an eraser stroke replays to: one cleared square
/// per sampled point, in order.
pub open spec fn path_erase_ops(p: PathV) -> Seq<SurfaceOp> {
    Seq::new(
        p.points.len(),
        |i: int| SurfaceOp::EraseSquare { p: p.points[i], size: p.line_width },
    )
}

/// The surface operations one drawing command replays to. `EraseCanvas` is
/// not covered here: replaying it clears the surface instead of appending.
pub open spec fn command_ops(c: CommandV) -> Seq<SurfaceOp> {
    match c {
        CommandV::DrawPath(p) => path_draw_ops(p),
        CommandV::ErasePath(p) => path_erase_ops(p),
        CommandV::DrawLine(s) => seq![
            SurfaceOp::DrawLine {
                start: s.start_point,
                end: s.end_point,
                color: s.color,
                line_width: s.line_width,
            },
        ],
        CommandV::DrawCircle(s) => seq![
            SurfaceOp::DrawCircle {
                center: s.start_point,
                radius: circle_radius(s.start_point, s.end_point) as u64,
                color: s.color,
                line_width: s.line_width,
            },
        ],
        CommandV::DrawRectangle(s) => seq![
            SurfaceOp::DrawRect {
                start: s.start_point,
                end: s.end_point,
                color: s.color,
                line_width: s.line_width,
            },
        ],
        CommandV::EraseCanvas => Seq::empty(),
    }
}

/// The visual state of a surface after executing one command on it:
/// `EraseCanvas` clears the surface, every other command appends its
/// operations.
pub open spec fn apply_command(ops: Seq<SurfaceOp>, c: CommandV) -> Seq<SurfaceOp> {
    match c {
        CommandV::EraseCanvas => Seq::empty(),
        _ => ops + command_ops(c),
    }
}

/// The visual state of a surface after executing a sequence of commands on
/// it, oldest first.
pub open spec fn apply_commands(ops: Seq<SurfaceOp>, cs: Seq<CommandV>) -> Seq<SurfaceOp>
    decreases cs.len(),
{
    if cs.len() == 0 {
        ops
    } else {
        apply_command(apply_commands(ops, cs.drop_last()), cs.last())
    }
}

/// The visual state a command history produces when replayed onto a cleared
/// surface.
pub open spec fn replay_ops(cs: Seq<CommandV>) -> Seq<SurfaceOp> {
    apply_commands(Seq::empty(), cs)
}

impl Command {
    /// Replays this command against a rendering surface: paths stroke or
    /// erase each of their points in order, shapes invoke their primitive
    /// once, and `EraseCanvas` clears the whole surface.
    pub fn execute(&self, drawing_canvas: &mut DrawingCanvas)
        ensures
            final(drawing_canvas)@ == apply_command(old(drawing_canvas)@, self@),
            final(drawing_canvas).properties == old(drawing_canvas).properties,
    {
        match self {
            Command::DrawPath(path) => {
                drawing_canvas.begin_path();
                let ghost base = drawing_canvas@;
                let mut i: usize = 0;
                while i < path.points.len()
                    invariant
                        i <= path.points@.len(),
                        drawing_canvas@ == base + Seq::new(
                            i as nat,
                            |j: int| SurfaceOp::DrawPoint {
                                p: path.points@[j],
                                color: path.color,
                                line_width: path.line_width,
                            },
                        ),
                        drawing_canvas.properties == old(drawing_canvas).properties,
                    decreases path.points@.len() - i,
                {
                    drawing_canvas.draw_point(&path.points[i], path.color, path.line_width);
                    i = i + 1;
                    proof {
                        assert(drawing_canvas@ =~= base + Seq::new(
                            i as nat,
                            |j: int| SurfaceOp::DrawPoint {
                                p: path.points@[j],
                                color: path.color,
                                line_width: path.line_width,
                            },
                        ));
                    }
                }
                proof {
                    assert(drawing_canvas@ =~= apply_command(old(drawing_canvas)@, self@));
                }
            }
            Command::ErasePath(path) => {
                let ghost base = drawing_canvas@;
                let mut i: usize = 0;
                while i < path.points.len()
                    invariant
                        i <= path.points@.len(),
                        drawing_canvas@ == base + Seq::new(
                            i as nat,
                            |j: int| SurfaceOp::EraseSquare {
                                p: path.points@[j],
                                size: path.line_width,
                            },
                        ),
                        drawing_canvas.properties == old(drawing_canvas).properties,
                    decreases path.points@.len() - i,
                {
                    drawing_canvas.erase(path.points[i], path.line_width);
                    i = i + 1;
                    proof {
                        assert(drawing_canvas@ =~= base + Seq::new(
                            i as nat,
                            |j: int| SurfaceOp::EraseSquare {
                                p: path.points@[j],
                                size: path.line_width,
                            },
                        ));
                    }
                }
                proof {
                    assert(drawing_canvas@ =~= apply_command(old(drawing_canvas)@, self@));
                }
            }
            Command::DrawLine(s) => {
                drawing_canvas.draw_line(&s.start_point, &s.end_point, &s.color, s.line_width);
                proof {
                    assert(drawing_canvas@ =~= apply_command(old(drawing_canvas)@, self@));
                }
            }
            Command::DrawCircle(s) => {
                drawing_canvas.draw_circle(&s.start_point, &s.end_point, &s.color, s.line_width);
                proof {
                    assert(drawing_canvas@ =~= apply_command(old(drawing_canvas)@, self@));
                }
            }
            Command::DrawRectangle(s) => {
                drawing_canvas.draw_rect(&s.start_point, &s.end_point, &s.color, s.line_width);
                proof {
                    assert(drawing_canvas@ =~= apply_command(old(drawing_canvas)@, self@));
                }
            }
            Command::EraseCanvas => {
                drawing_canvas.clear_canvas();
            }
        }
    }
}

impl DrawingCanvas {
    /// Replays a whole command history against this surface, oldest first.
    pub fn execute_commands(&mut self, commands: &Vec<Command>)
        ensures
            final(self)@ == apply_commands(old(self)@, view_commands(commands@)),
            final(self).properties == old(self).properties,
    {
        let mut i: usize = 0;
        while i < commands.len()
            invariant
                i <= commands@.len(),
                self@ == apply_commands(old(self)@, view_commands(commands@.take(i as int))),
                self.properties == old(self).properties,
            decreases commands@.len() - i,
        {
            commands[i].execute(self);
            i = i + 1;
            proof {
                lemma_apply_commands_take_step(old(self)@, commands@, i as int);
            }
        }
        proof {
            assert(commands@.take(commands@.len() as int) =~= commands@);
        }
    }
}

/// Replaying one more command from a history is executing it after the
/// earlier ones.
proof fn lemma_apply_commands_take_step(ops: Seq<SurfaceOp>, cs: Seq<Command>, i: int)
    requires
        0 < i <= cs.len(),
    ensures
        apply_commands(ops, view_commands(cs.take(i))) == apply_command(
            apply_commands(ops, view_commands(cs.take(i - 1))),
            cs[i - 1]@,
        ),
{
    assert(view_commands(cs.take(i)).drop_last() =~= view_commands(cs.take(i - 1)));
    assert(view_commands(cs.take(i)).last() == cs[i - 1]@);
}

} // verus!
