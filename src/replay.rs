//! Replaying drained commands: every shape paired with the context in force
//! where it stands, as a backend draws it.
use crate::context::{default_context, Context};
use crate::primitive::Primitive;
use crate::state::{lemma_start_wf, DrawCommand, StateView};
use vstd::prelude::*;

verus! {

/// A shape together with the context it is drawn in.
#[derive(Debug)]
pub struct Placed {
    pub context: Context,
    pub primitive: Primitive,
}

/// The context in force just before command `i`: the one the last context
/// change before it switched to, else `start`.
pub open spec fn context_before(cmds: Seq<DrawCommand>, i: int, start: Context) -> Context
    decreases i,
{
    if i <= 0 {
        start
    } else {
        match cmds[i - 1] {
            DrawCommand::Context(c) => c,
            DrawCommand::Primitive(_) => context_before(cmds, i - 1, start),
        }
    }
}

/// The shapes among the first `n` commands, in order, each with the context
/// in force where it stands.
pub open spec fn placed_prefix(cmds: Seq<DrawCommand>, n: int, start: Context) -> Seq<Placed>
    decreases n,
{
    if n <= 0 {
        Seq::empty()
    } else {
        let before = placed_prefix(cmds, n - 1, start);
        match cmds[n - 1] {
            DrawCommand::Primitive(p) => before.push(
                Placed { context: context_before(cmds, n - 1, start), primitive: p },
            ),
            DrawCommand::Context(_) => before,
        }
    }
}

/// The shapes of a command sequence, in order, each with its context, replayed
/// from the default context.
pub open spec fn placed(cmds: Seq<DrawCommand>) -> Seq<Placed> {
    placed_prefix(cmds, cmds.len() as int, default_context())
}

/// Replay commands in one pass from the default context: a context change
/// replaces the tracked context, and each shape is paired with the tracked
/// context.
pub fn replay(cmds: &Vec<DrawCommand>) -> (r: Vec<Placed>)
    ensures
        r@ == placed(cmds@),
{
    let mut current = Context::new();
    let mut out: Vec<Placed> = Vec::new();
    let mut i: usize = 0;
    while i < cmds.len()
        invariant
            0 <= i <= cmds@.len(),
            current == context_before(cmds@, i as int, default_context()),
            out@ == placed_prefix(cmds@, i as int, default_context()),
        decreases cmds@.len() - i,
    {
        match &cmds[i] {
            DrawCommand::Context(c) => {
                current = c.copy();
            },
            DrawCommand::Primitive(p) => {
                out.push(Placed { context: current.copy(), primitive: *p });
            },
        }
        i = i + 1;
    }
    out
}

/// The remembered context is the one a replay of the session's commands from
/// the default context ends in. This holds of a fresh or reset session and is
/// kept by every call that records or configures a shape.
pub open spec fn replay_in_step(v: StateView) -> bool {
    match v.last_context {
        Some(c) => context_before(v.finalized(), v.commands.len() as int, default_context()) == c,
        None => true,
    }
}

/// Commands appended after the first `i` leave the context in force there as it was.
proof fn lemma_context_before_prefix(s: Seq<DrawCommand>, t: Seq<DrawCommand>, i: int, start: Context)
    requires
        0 <= i <= s.len(),
    ensures
        context_before(s + t, i, start) == context_before(s, i, start),
    decreases i,
{
    if i > 0 {
        assert((s + t)[i - 1] == s[i - 1]);
        lemma_context_before_prefix(s, t, i - 1, start);
    }
}

/// Sequences that agree on every context change agree on the context in force.
proof fn lemma_context_before_same_changes(s: Seq<DrawCommand>, t: Seq<DrawCommand>, i: int, start: Context)
    requires
        0 <= i <= s.len(),
        s.len() == t.len(),
        forall|k: int| 0 <= k < s.len() && (s[k] is Context || t[k] is Context) ==> s[k] == t[k],
    ensures
        context_before(s, i, start) == context_before(t, i, start),
    decreases i,
{
    if i > 0 {
        lemma_context_before_same_changes(s, t, i - 1, start);
    }
}

/// Starting a shape appends to what a drain would hand over: the context
/// change, if one was recorded, then the shape.
proof fn lemma_start_finalized(v: StateView, context: Context, prim: Primitive)
    requires
        v.wf(),
        v.commands.len() + 2 <= usize::MAX,
    ensures
        ({
            let (w, i) = v.start(context, prim);
            let extra = if v.last_context == Some(context) {
                seq![DrawCommand::Primitive(prim)]
            } else {
                seq![DrawCommand::Context(context), DrawCommand::Primitive(prim)]
            };
            &&& w.finalized() == v.finalized() + extra
            &&& i == w.commands.len() - 1
        }),
{
    let (w, i) = v.start(context, prim);
    let extra = if v.last_context == Some(context) {
        seq![DrawCommand::Primitive(prim)]
    } else {
        seq![DrawCommand::Context(context), DrawCommand::Primitive(prim)]
    };
    let n = v.commands.len() as int;
    assert(w.commands.len() == n + extra.len());
    assert forall|k: int| 0 <= k < w.commands.len() implies #[trigger] w.finalized()[k] == (v.finalized() + extra)[k] by {
        if k < n {
            assert(w.commands[k] == v.commands[k]);
            if v.commands[k] is None {
                assert(v.pending.contains_key(k as usize));
                assert(k as usize != i);
            }
        } else if k < w.commands.len() - 1 {
            assert(w.commands[k] == Some(DrawCommand::Context(context)));
        } else {
            assert(w.commands[k] is None);
            assert(k as usize == i);
        }
    }
    assert(w.finalized() =~= v.finalized() + extra);
}

/// A shape is replayed with the context of the handle that started it: the
/// context in force at its slot is that context, and the session stays in
/// step with the remembered context.
pub proof fn lemma_start_in_context(v: StateView, context: Context, prim: Primitive)
    requires
        v.wf(),
        v.commands.len() + 2 <= usize::MAX,
        replay_in_step(v),
    ensures
        ({
            let (w, i) = v.start(context, prim);
            &&& replay_in_step(w)
            &&& w.finalized()[i as int] == DrawCommand::Primitive(prim)
            &&& context_before(w.finalized(), i as int, default_context()) == context
        }),
{
    let (w, i) = v.start(context, prim);
    lemma_start_finalized(v, context, prim);
    let f = v.finalized();
    let g = w.finalized();
    let n = f.len() as int;
    if v.last_context == Some(context) {
        lemma_context_before_prefix(f, seq![DrawCommand::Primitive(prim)], n, default_context());
        assert(context_before(g, n + 1, default_context()) == context_before(g, n, default_context()));
    } else {
        assert(g[n] == DrawCommand::Context(context));
        assert(context_before(g, n + 2, default_context()) == context_before(g, n + 1, default_context()));
    }
}

/// Finishing a shape leaves the session in step and every context in force
/// where it was.
pub proof fn lemma_finish_in_context(v: StateView, index: usize, i: int)
    requires
        v.wf(),
        0 <= i <= v.commands.len(),
    ensures
        replay_in_step(v) ==> replay_in_step(v.finish_one(index)),
        context_before(v.finish_one(index).finalized(), i, default_context())
            == context_before(v.finalized(), i, default_context()),
{
    let w = v.finish_one(index);
    assert(w.finalized() =~= v.finalized()) by {
        assert forall|k: int| 0 <= k < v.commands.len() implies #[trigger] w.finalized()[k] == v.finalized()[k] by {
            if k != index {
                assert(w.commands[k] == v.commands[k]);
                if v.commands[k] is None {
                    assert(v.pending.contains_key(k as usize));
                    assert(k as usize != index);
                }
            }
        }
    }
}

/// Changing a pending shape leaves the session in step and every context in
/// force where it was.
pub proof fn lemma_edit_in_context(v: StateView, index: usize, prim: Primitive, i: int)
    requires
        v.wf(),
        0 <= i <= v.commands.len(),
    ensures
        replay_in_step(v) ==> replay_in_step(v.edit(index, prim)),
        context_before(v.edit(index, prim).finalized(), i, default_context())
            == context_before(v.finalized(), i, default_context()),
{
    let w = v.edit(index, prim);
    let f = v.finalized();
    let g = w.finalized();
    assert forall|k: int| 0 <= k < f.len() && (f[k] is Context || g[k] is Context) implies f[k] == g[k] by {
        assert(w.commands[k] == v.commands[k]);
        if v.commands[k] is None {
            assert(v.pending.contains_key(k as usize));
        }
    }
    lemma_context_before_same_changes(f, g, i, default_context());
    lemma_context_before_same_changes(f, g, f.len() as int, default_context());
}

/// Shapes started later leave the context in force at every earlier slot as
/// it was.
pub proof fn lemma_start_keeps_earlier_contexts(v: StateView, context: Context, prim: Primitive, i: int)
    requires
        v.wf(),
        v.commands.len() + 2 <= usize::MAX,
        0 <= i <= v.commands.len(),
    ensures
        context_before(v.start(context, prim).0.finalized(), i, default_context())
            == context_before(v.finalized(), i, default_context()),
{
    lemma_start_finalized(v, context, prim);
    let extra = if v.last_context == Some(context) {
        seq![DrawCommand::Primitive(prim)]
    } else {
        seq![DrawCommand::Context(context), DrawCommand::Primitive(prim)]
    };
    lemma_context_before_prefix(v.finalized(), extra, i, default_context());
}

/// A fresh session is in step with its remembered context.
pub proof fn lemma_fresh_in_step()
    ensures
        replay_in_step(StateView::fresh()),
{
}

/// The state after the shapes `prims[0..n]` are started in a fresh session,
/// the k-th with context `ctxs[k]`, with no drain or reset between.
pub open spec fn session(ctxs: Seq<Context>, prims: Seq<Primitive>, n: nat) -> StateView
    decreases n,
{
    if n == 0 {
        StateView::fresh()
    } else {
        session(ctxs, prims, (n - 1) as nat).start(ctxs[n - 1], prims[n - 1]).0
    }
}

/// The commands such a session records: before the k-th shape, a context
/// change to `ctxs[k]` where it is the first shape or its context differs
/// from the one before; then the shape.
pub open spec fn session_commands(ctxs: Seq<Context>, prims: Seq<Primitive>, n: nat) -> Seq<DrawCommand>
    decreases n,
{
    if n == 0 {
        Seq::empty()
    } else {
        let change = if n == 1 || ctxs[n - 1] != ctxs[n - 2] {
            seq![DrawCommand::Context(ctxs[n - 1])]
        } else {
            Seq::empty()
        };
        session_commands(ctxs, prims, (n - 1) as nat) + change + seq![DrawCommand::Primitive(prims[n - 1])]
    }
}

/// Starting `n` shapes in a fresh session and draining hands over exactly the
/// shapes in order, each preceded by a context change exactly where it is the
/// first or its context differs from the shape before it: no change is
/// missing and none is redundant.
pub proof fn lemma_session_commands(ctxs: Seq<Context>, prims: Seq<Primitive>, n: nat)
    requires
        n <= ctxs.len(),
        n <= prims.len(),
        2 * n + 2 <= usize::MAX,
    ensures
        session(ctxs, prims, n).wf(),
        session(ctxs, prims, n).commands.len() <= 2 * n,
        session(ctxs, prims, n).last_context == (if n == 0 {
            None::<Context>
        } else {
            Some(ctxs[n - 1])
        }),
        session(ctxs, prims, n).finalized() == session_commands(ctxs, prims, n),
    decreases n,
{
    if n == 0 {
        let v = StateView::fresh();
        assert(v.finalized() =~= Seq::<DrawCommand>::empty());
    } else {
        let m = (n - 1) as nat;
        lemma_session_commands(ctxs, prims, m);
        let v = session(ctxs, prims, m);
        lemma_start_wf(v, ctxs[n - 1], prims[n - 1]);
        lemma_start_finalized(v, ctxs[n - 1], prims[n - 1]);
        let w = session(ctxs, prims, n);
        assert(w.commands.len() == w.finalized().len());
        assert(v.commands.len() == v.finalized().len());
        let change = if n == 1 || ctxs[n - 1] != ctxs[n - 2] {
            seq![DrawCommand::Context(ctxs[n - 1])]
        } else {
            Seq::empty()
        };
        let extra = if v.last_context == Some(ctxs[n - 1]) {
            seq![DrawCommand::Primitive(prims[n - 1])]
        } else {
            seq![DrawCommand::Context(ctxs[n - 1]), DrawCommand::Primitive(prims[n - 1])]
        };
        assert(extra =~= change + seq![DrawCommand::Primitive(prims[n - 1])]);
        assert(session_commands(ctxs, prims, n) =~= session_commands(ctxs, prims, m) + extra);
    }
}

} // verus!
