//! The command stack: two ordered stacks of commands (newest last) with
//! full-replay undo/redo semantics, and the laws the engine guarantees about
//! them.

use vstd::prelude::*;

use crate::command::{replay_ops, view_commands, Command, CommandV};
use crate::surface::{DrawingCanvas, SurfaceOp};

verus! {

/// The undo and redo histories. Any mutation that pushes a new command onto
/// `undo` clears `redo` entirely, and consecutive `EraseCanvas` entries are
/// never pushed adjacently.
#[derive(Debug)]
pub struct CommandStack {
    pub undo: Vec<Command>,
    pub redo: Vec<Command>,
}

/// The mathematical value of a `CommandStack`.
pub struct StackV {
    pub undo: Seq<CommandV>,
    pub redo: Seq<CommandV>,
}

impl View for CommandStack {
    type V = StackV;

    open spec fn view(&self) -> StackV {
        StackV { undo: view_commands(self.undo@), redo: view_commands(self.redo@) }
    }
}

/// Whether a history ends in a canvas-wide erase.
pub open spec fn ends_with_erase(cs: Seq<CommandV>) -> bool {
    cs.len() > 0 && cs.last() is EraseCanvas
}

/// The stack after committing one command: the command is appended to the
/// undo history — except that an `EraseCanvas` on top of an `EraseCanvas`
/// collapses into it — and the redo history is invalidated.
pub open spec fn push_spec(s: StackV, c: CommandV) -> StackV {
    StackV {
        undo: if c is EraseCanvas && ends_with_erase(s.undo) {
            s.undo
        } else {
            s.undo.push(c)
        },
        redo: Seq::empty(),
    }
}

/// The stacks after one undo: a no-op when there is nothing to undo,
/// otherwise the newest command moves from the undo to the redo history.
pub open spec fn undo_spec(s: StackV) -> StackV {
    if s.undo.len() == 0 {
        s
    } else {
        StackV { undo: s.undo.drop_last(), redo: s.redo.push(s.undo.last()) }
    }
}

/// The surface after one undo, starting from visual state `ops`: a no-op
/// when there is nothing to undo, otherwise the surface is cleared and the
/// remaining undo history is replayed in full.
pub open spec fn undo_surface_spec(s: StackV, ops: Seq<SurfaceOp>) -> Seq<SurfaceOp> {
    if s.undo.len() == 0 {
        ops
    } else {
        replay_ops(s.undo.drop_last())
    }
}

/// The stacks after one redo: a no-op when there is nothing to redo,
/// otherwise the newest undone command moves back to the undo history.
pub open spec fn redo_spec(s: StackV) -> StackV {
    if s.redo.len() == 0 {
        s
    } else {
        StackV { undo: s.undo.push(s.redo.last()), redo: s.redo.drop_last() }
    }
}

/// The surface after one redo, starting from visual state `ops`.
pub open spec fn redo_surface_spec(s: StackV, ops: Seq<SurfaceOp>) -> Seq<SurfaceOp> {
    if s.redo.len() == 0 {
        ops
    } else {
        replay_ops(s.undo.push(s.redo.last()))
    }
}

impl CommandStack {
    /// Both histories start empty.
    pub fn new() -> (stack: CommandStack)
        ensures
            stack@.undo == Seq::<CommandV>::empty(),
            stack@.redo == Seq::<CommandV>::empty(),
    {
        CommandStack { undo: Vec::new(), redo: Vec::new() }
    }

    /// How many commands can be undone; exposed so a host can enable or
    /// disable its undo control.
    pub fn undo_len(&self) -> (n: usize)
        ensures
            n == self@.undo.len(),
    {
        self.undo.len()
    }

    /// How many commands can be redone.
    pub fn redo_len(&self) -> (n: usize)
        ensures
            n == self@.redo.len(),
    {
        self.redo.len()
    }

    /// Whether the newest committed command is a canvas-wide erase.
    fn top_is_erase_canvas(&self) -> (r: bool)
        ensures
            r == ends_with_erase(self@.undo),
    {
        if self.undo.len() == 0 {
            false
        } else {
            match self.undo[self.undo.len() - 1] {
                Command::EraseCanvas => true,
                _ => false,
            }
        }
    }

    /// Commits one completed command: appends it to the undo history —
    /// collapsing an `EraseCanvas` pushed onto an `EraseCanvas` — and
    /// invalidates the redo history.
    pub fn push(&mut self, command: Command)
        ensures
            final(self)@ == push_spec(old(self)@, command@),
    {
        let skip = match &command {
            Command::EraseCanvas => self.top_is_erase_canvas(),
            _ => false,
        };
        if !skip {
            self.undo.push(command);
        }
        self.redo.clear();
        proof {
            assert(self@.undo =~= push_spec(old(self)@, command@).undo);
            assert(self@.redo =~= Seq::<CommandV>::empty());
        }
    }

    /// Invalidates the redo history without committing anything; a host
    /// calls this when a new gesture begins.
    pub fn clear_redo(&mut self)
        ensures
            final(self)@.undo == old(self)@.undo,
            final(self)@.redo == Seq::<CommandV>::empty(),
    {
        self.redo.clear();
        proof {
            assert(self@.redo =~= Seq::<CommandV>::empty());
        }
    }

    /// Undoes the newest command: a no-op on an empty undo history,
    /// otherwise the command moves to the redo history, the surface is
    /// cleared, and every remaining command is replayed in order.
    pub fn undo(&mut self, drawing_canvas: &mut DrawingCanvas)
        ensures
            final(self)@ == undo_spec(old(self)@),
            final(drawing_canvas)@ == undo_surface_spec(old(self)@, old(drawing_canvas)@),
            final(drawing_canvas).properties == old(drawing_canvas).properties,
    {
        if self.undo.is_empty() {
        } else {
            drawing_canvas.clear_canvas();
            let command = self.undo.pop().unwrap();
            self.redo.push(command);
            drawing_canvas.execute_commands(&self.undo);
        }
        proof {
            if old(self)@.undo.len() == 0 {
                assert(self@.undo =~= old(self)@.undo);
                assert(self@.redo =~= old(self)@.redo);
            } else {
                assert(self@.undo =~= undo_spec(old(self)@).undo);
                assert(self@.redo =~= undo_spec(old(self)@).redo);
            }
        }
    }

    /// Redoes the newest undone command: a no-op on an empty redo history,
    /// otherwise the command moves back to the undo history, the surface is
    /// cleared, and the whole undo history is replayed in order.
    pub fn redo(&mut self, drawing_canvas: &mut DrawingCanvas)
        ensures
            final(self)@ == redo_spec(old(self)@),
            final(drawing_canvas)@ == redo_surface_spec(old(self)@, old(drawing_canvas)@),
            final(drawing_canvas).properties == old(drawing_canvas).properties,
    {
        if self.redo.is_empty() {
        } else {
            drawing_canvas.clear_canvas();
            let command = self.redo.pop().unwrap();
            self.undo.push(command);
            drawing_canvas.execute_commands(&self.undo);
        }
        proof {
            if old(self)@.redo.len() == 0 {
                assert(self@.undo =~= old(self)@.undo);
                assert(self@.redo =~= old(self)@.redo);
            } else {
                assert(self@.undo =~= redo_spec(old(self)@).undo);
                assert(self@.redo =~= redo_spec(old(self)@).redo);
            }
        }
    }

    /// Clears the surface and commits one `EraseCanvas`, collapsing it into
    /// an `EraseCanvas` already on top of the undo history.
    pub fn erase_all(&mut self, drawing_canvas: &mut DrawingCanvas)
        ensures
            final(self)@ == push_spec(old(self)@, CommandV::EraseCanvas),
            final(drawing_canvas)@ == Seq::<SurfaceOp>::empty(),
            final(drawing_canvas).properties == old(drawing_canvas).properties,
    {
        drawing_canvas.clear_canvas();
        self.push(Command::EraseCanvas);
    }
}

/// Replaying a history onto a cleared surface and then undoing once leaves
/// the surface exactly as replaying the history without its newest command
/// would.
pub proof fn lemma_undo_yields_prefix_replay(s: StackV)
    requires
        s.undo.len() > 0,
    ensures
        undo_surface_spec(s, replay_ops(s.undo)) == replay_ops(s.undo.drop_last()),
{
}

/// A redo directly after an undo, with no commit in between, restores
/// exactly the state before the undo: both stacks and, when the surface
/// showed the replayed history, the surface as well.
pub proof fn lemma_redo_restores_undone_state(s: StackV)
    requires
        s.undo.len() > 0,
    ensures
        redo_spec(undo_spec(s)).undo == s.undo,
        redo_spec(undo_spec(s)).redo == s.redo,
        redo_surface_spec(undo_spec(s), undo_surface_spec(s, replay_ops(s.undo))) == replay_ops(
            s.undo,
        ),
{
    let u = undo_spec(s);
    assert(u.redo.last() == s.undo.last());
    assert(u.undo.push(u.redo.last()) =~= s.undo);
    assert(u.redo.drop_last() =~= s.redo);
}

/// Committing any command invalidates the redo history entirely.
pub proof fn lemma_push_clears_redo(s: StackV, c: CommandV)
    ensures
        push_spec(s, c).redo == Seq::<CommandV>::empty(),
{
}

/// Committing `EraseCanvas` twice with no other command in between leaves
/// the undo history with exactly one `EraseCanvas` on top: the second
/// commit changes nothing, and the first appends a single entry unless the
/// history already ended in one.
pub proof fn lemma_erase_canvas_collapses(s: StackV)
    ensures
        push_spec(push_spec(s, CommandV::EraseCanvas), CommandV::EraseCanvas).undo == push_spec(
            s,
            CommandV::EraseCanvas,
        ).undo,
        ends_with_erase(push_spec(s, CommandV::EraseCanvas).undo),
        !ends_with_erase(s.undo) ==> push_spec(s, CommandV::EraseCanvas).undo == s.undo.push(
            CommandV::EraseCanvas,
        ),
{
}

/// Undo on an empty undo history leaves the stacks and the surface
/// unchanged.
pub proof fn lemma_undo_on_empty_is_noop(s: StackV, ops: Seq<SurfaceOp>)
    requires
        s.undo.len() == 0,
    ensures
        undo_spec(s) == s,
        undo_surface_spec(s, ops) == ops,
{
}

/// Redo on an empty redo history leaves the stacks and the surface
/// unchanged.
pub proof fn lemma_redo_on_empty_is_noop(s: StackV, ops: Seq<SurfaceOp>)
    requires
        s.redo.len() == 0,
    ensures
        redo_spec(s) == s,
        redo_surface_spec(s, ops) == ops,
{
}

/// No two canvas-wide erases stand next to each other in a command
/// history.
pub open spec fn no_adjacent_erase(cs: Seq<CommandV>) -> bool {
    forall|i: int|
        0 <= i < cs.len() - 1 ==> !((#[trigger] cs[i]) is EraseCanvas && cs[i + 1] is EraseCanvas)
}

/// The whole history a stack carries, oldest first: the undo history, then
/// the undone commands, which rejoin the undo history newest-first when
/// redone.
pub open spec fn stack_history(s: StackV) -> Seq<CommandV> {
    s.undo + s.redo.reverse()
}

/// Committing a command never leaves two canvas-wide erases adjacent in
/// the history: the collapse rule forbids the only way one could arise.
pub proof fn lemma_push_preserves_no_adjacent_erase(s: StackV, c: CommandV)
    requires
        no_adjacent_erase(stack_history(s)),
    ensures
        no_adjacent_erase(stack_history(push_spec(s, c))),
{
    let h = stack_history(s);
    let s2 = push_spec(s, c);
    let h2 = stack_history(s2);
    if c is EraseCanvas && ends_with_erase(s.undo) {
        assert(h2 =~= s.undo);
        assert forall|i: int|
            0 <= i < h2.len() - 1 implies !((#[trigger] h2[i]) is EraseCanvas
            && h2[i + 1] is EraseCanvas) by {
            assert(h[i] == s.undo[i]);
            assert(h[i + 1] == s.undo[i + 1]);
        }
    } else {
        assert(h2 =~= s.undo.push(c));
        assert forall|i: int|
            0 <= i < h2.len() - 1 implies !((#[trigger] h2[i]) is EraseCanvas
            && h2[i + 1] is EraseCanvas) by {
            if i + 1 < s.undo.len() {
                assert(h[i] == s.undo[i]);
                assert(h[i + 1] == s.undo[i + 1]);
            }
        }
    }
}

/// Undo moves one command between the stacks but leaves the carried
/// history — and with it the erase-adjacency structure — unchanged.
pub proof fn lemma_undo_preserves_history(s: StackV)
    ensures
        stack_history(undo_spec(s)) == stack_history(s),
{
    if s.undo.len() > 0 {
        assert(stack_history(undo_spec(s)) =~= stack_history(s));
    }
}

/// Redo moves one command back between the stacks but leaves the carried
/// history unchanged.
pub proof fn lemma_redo_preserves_history(s: StackV)
    ensures
        stack_history(redo_spec(s)) == stack_history(s),
{
    if s.redo.len() > 0 {
        assert(stack_history(redo_spec(s)) =~= stack_history(s));
    }
}

} // verus!
