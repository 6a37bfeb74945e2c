//! The state shared by every handle of a drawing session: the recorded
//! commands, the shapes still being configured, the background and the
//! scratch buffers.
use crate::context::Context;
use crate::geom::{Point2, Point3};
use crate::primitive::{Primitive, Span};
use crate::properties::Srgba;
use std::collections::HashMap;
use vstd::prelude::*;

verus! {

broadcast use vstd::std_specs::hash::group_hash_axioms;

/// A recorded command: draw a shape, or switch to a new context.
#[derive(Debug)]
pub enum DrawCommand {
    /// Draw a primitive.
    Primitive(Primitive),
    /// The context changed: what follows is drawn with this one.
    Context(Context),
}

impl DrawCommand {
    pub fn copy(&self) -> (r: DrawCommand)
        ensures
            r == *self,
    {
        match self {
            DrawCommand::Primitive(p) => DrawCommand::Primitive(*p),
            DrawCommand::Context(c) => DrawCommand::Context(c.copy()),
        }
    }
}

impl Clone for DrawCommand {
    fn clone(&self) -> (r: Self)
        ensures
            r == *self,
    {
        self.copy()
    }
}

/// The context a slot switches to, if it holds a context change.
pub open spec fn change_in(slot: Option<DrawCommand>) -> Option<Context> {
    match slot {
        Some(DrawCommand::Context(c)) => Some(c),
        _ => None,
    }
}

/// Whether slot `i` holds a context change.
pub open spec fn change_at(slots: Seq<Option<DrawCommand>>, i: int) -> bool {
    0 <= i < slots.len() && change_in(slots[i]) is Some
}

/// The context that slot `i` switches to.
pub open spec fn context_at(slots: Seq<Option<DrawCommand>>, i: int) -> Context {
    change_in(slots[i])->0
}

/// Whether no context change lies strictly between slots `i` and `j`.
pub open spec fn no_change_between(slots: Seq<Option<DrawCommand>>, i: int, j: int) -> bool {
    forall|k: int| i < k < j ==> !#[trigger] change_at(slots, k)
}

/// Context changes are never redundant: each is followed at once by a shape,
/// and each switches to a context other than the one the previous change
/// switched to.
pub open spec fn changes_not_redundant(slots: Seq<Option<DrawCommand>>) -> bool {
    &&& forall|i: int| #[trigger]
        change_at(slots, i) ==> i + 1 < slots.len() && !change_at(slots, i + 1)
    &&& forall|i: int, j: int|
        #![trigger change_at(slots, i), change_at(slots, j)]
        i < j && change_at(slots, i) && change_at(slots, j) && no_change_between(slots, i, j)
            ==> context_at(slots, i) != context_at(slots, j)
}

/// Commands as the slots that hold them.
pub open spec fn as_slots(cmds: Seq<DrawCommand>) -> Seq<Option<DrawCommand>> {
    cmds.map_values(|c: DrawCommand| Some(c))
}

/// A segment of a path.
#[derive(Clone, Copy, Debug, PartialEq, Eq, Structural)]
pub enum PathEvent {
    Begin { at: Point2 },
    Line { from: Point2, to: Point2 },
    Quadratic { from: Point2, ctrl: Point2, to: Point2 },
    Cubic { from: Point2, ctrl1: Point2, ctrl2: Point2, to: Point2 },
    End { last: Point2, first: Point2, close: bool },
}

/// The events of an open polyline through `pts`: nothing for no points, else
/// a beginning, a line between each two neighbours, and an end.
pub open spec fn polyline_events(pts: Seq<Point2>) -> Seq<PathEvent> {
    if pts.len() == 0 {
        Seq::empty()
    } else {
        seq![PathEvent::Begin { at: pts[0] }] + Seq::new(
            (pts.len() - 1) as nat,
            |i: int| PathEvent::Line { from: pts[i], to: pts[i + 1] },
        ) + seq![PathEvent::End { last: pts[pts.len() - 1], first: pts[0], close: false }]
    }
}

/// Each point with the given color.
pub open spec fn colored(pts: Seq<Point2>, color: Srgba) -> Seq<(Point2, Srgba)> {
    Seq::new(pts.len(), |i: int| (pts[i], color))
}

/// The indices `first`, `first + 1`, ... of `n` vertices.
pub open spec fn sequential(first: nat, n: nat) -> Seq<usize> {
    Seq::new(n, |i: int| (first + i) as usize)
}

fn append_polyline(buf: &mut Vec<PathEvent>, pts: &Vec<Point2>)
    ensures
        final(buf)@ == old(buf)@ + polyline_events(pts@),
{
    let ghost b0 = buf@;
    let n = pts.len();
    if n == 0 {
        assert(b0 + polyline_events(pts@) =~= b0);
        return;
    }
    buf.push(PathEvent::Begin { at: pts[0] });
    let ghost lines = Seq::new((pts@.len() - 1) as nat, |i: int| PathEvent::Line { from: pts@[i], to: pts@[i + 1] });
    let mut i: usize = 1;
    while i < n
        invariant
            1 <= i <= n,
            n == pts@.len(),
            lines == Seq::new((pts@.len() - 1) as nat, |k: int| PathEvent::Line { from: pts@[k], to: pts@[k + 1] }),
            buf@ == b0 + seq![PathEvent::Begin { at: pts@[0] }] + lines.subrange(0, i - 1),
        decreases n - i,
    {
        buf.push(PathEvent::Line { from: pts[i - 1], to: pts[i] });
        assert(lines.subrange(0, i as int) =~= lines.subrange(0, i - 1).push(lines[i - 1]));
        i = i + 1;
    }
    assert(lines.subrange(0, n - 1) =~= lines);
    buf.push(PathEvent::End { last: pts[n - 1], first: pts[0], close: false });
    assert(buf@ =~= b0 + polyline_events(pts@));
}

fn append_colored(buf: &mut Vec<(Point2, Srgba)>, pts: &Vec<Point2>, color: Srgba)
    ensures
        final(buf)@ == old(buf)@ + colored(pts@, color),
{
    let ghost b0 = buf@;
    let mut i: usize = 0;
    while i < pts.len()
        invariant
            0 <= i <= pts@.len(),
            buf@ == b0 + colored(pts@, color).subrange(0, i as int),
        decreases pts@.len() - i,
    {
        buf.push((pts[i], color));
        assert(colored(pts@, color).subrange(0, i + 1) =~= colored(pts@, color).subrange(0, i as int).push((pts@[i as int], color)));
        i = i + 1;
    }
    assert(colored(pts@, color).subrange(0, pts@.len() as int) =~= colored(pts@, color));
}

fn append_triangles(mesh: &mut Mesh, pts: &Vec<Point3>)
    ensures
        final(mesh).points@ == old(mesh).points@ + pts@,
        final(mesh).indices@ == old(mesh).indices@ + sequential(old(mesh).points@.len(), pts@.len()),
        final(mesh).colors@ == old(mesh).colors@,
        final(mesh).tex_coords@ == old(mesh).tex_coords@,
{
    let ghost p0 = mesh.points@;
    let ghost i0 = mesh.indices@;
    let mut i: usize = 0;
    while i < pts.len()
        invariant
            0 <= i <= pts@.len(),
            mesh.points@ == p0 + pts@.subrange(0, i as int),
            mesh.indices@ == i0 + sequential(p0.len(), i as nat),
            mesh.colors@ == old(mesh).colors@,
            mesh.tex_coords@ == old(mesh).tex_coords@,
        decreases pts@.len() - i,
    {
        let index = mesh.points.len();
        mesh.points.push(pts[i]);
        mesh.indices.push(index);
        assert(pts@.subrange(0, i + 1) =~= pts@.subrange(0, i as int).push(pts@[i as int]));
        assert(sequential(p0.len(), (i + 1) as nat) =~= sequential(p0.len(), i as nat).push(index));
        i = i + 1;
    }
    assert(pts@.subrange(0, pts@.len() as int) =~= pts@);
}

fn append_chars(buf: &mut Vec<char>, s: &str)
    ensures
        final(buf)@ == old(buf)@ + s@,
{
    let ghost b0 = buf@;
    let ghost mut k: int = 0;
    for c in it: s.chars()
        invariant
            it.seq() == s@,
            k == it.index(),
            buf@ == b0 + s@.take(k),
    {
        assert(s@.take(k + 1) =~= s@.take(k).push(c));
        buf.push(c);
        proof {
            k = k + 1;
        }
    }
    assert(s@.take(k) =~= s@);
}

/// Vertex and index data.
#[derive(Debug)]
pub struct Mesh {
    pub points: Vec<Point3>,
    pub colors: Vec<Srgba>,
    pub tex_coords: Vec<Point2>,
    pub indices: Vec<usize>,
}

impl Mesh {
    pub open spec fn is_empty(&self) -> bool {
        &&& self.points@.len() == 0
        &&& self.colors@.len() == 0
        &&& self.tex_coords@.len() == 0
        &&& self.indices@.len() == 0
    }

    pub fn new() -> (r: Mesh)
        ensures
            r.is_empty(),
    {
        Mesh { points: Vec::new(), colors: Vec::new(), tex_coords: Vec::new(), indices: Vec::new() }
    }

    /// Remove all vertices and indices.
    pub fn clear(&mut self)
        ensures
            final(self).is_empty(),
    {
        self.points.clear();
        self.colors.clear();
        self.tex_coords.clear();
        self.indices.clear();
    }

    pub fn vertex_count(&self) -> (r: usize)
        ensures
            r == self.points@.len(),
    {
        self.points.len()
    }
}

/// Buffers reused between shapes so that rendering allocates less.
#[derive(Debug)]
pub struct IntermediaryState {
    /// Vertex data reused for paths, meshes and the like.
    pub intermediary_mesh: Mesh,
    /// Path events being collected.
    pub path_event_buffer: Vec<PathEvent>,
    /// Colored polyline points being collected.
    pub path_points_colored_buffer: Vec<(Point2, Srgba)>,
    /// Textured polyline points being collected.
    pub path_points_textured_buffer: Vec<(Point2, Point2)>,
    /// All text, as characters.
    pub text_buffer: Vec<char>,
}

/// What the scratch buffers hold, as mathematical values.
pub struct ScratchView {
    pub mesh_points: Seq<Point3>,
    pub mesh_colors: Seq<Srgba>,
    pub mesh_tex_coords: Seq<Point2>,
    pub mesh_indices: Seq<usize>,
    pub path_events: Seq<PathEvent>,
    pub colored_points: Seq<(Point2, Srgba)>,
    pub textured_points: Seq<(Point2, Point2)>,
    pub text: Seq<char>,
}

impl ScratchView {
    /// Every buffer empty.
    pub open spec fn empty() -> ScratchView {
        ScratchView {
            mesh_points: Seq::empty(),
            mesh_colors: Seq::empty(),
            mesh_tex_coords: Seq::empty(),
            mesh_indices: Seq::empty(),
            path_events: Seq::empty(),
            colored_points: Seq::empty(),
            textured_points: Seq::empty(),
            text: Seq::empty(),
        }
    }
}

impl IntermediaryState {
    /// What the buffers hold.
    pub open spec fn scratch(&self) -> ScratchView {
        ScratchView {
            mesh_points: self.intermediary_mesh.points@,
            mesh_colors: self.intermediary_mesh.colors@,
            mesh_tex_coords: self.intermediary_mesh.tex_coords@,
            mesh_indices: self.intermediary_mesh.indices@,
            path_events: self.path_event_buffer@,
            colored_points: self.path_points_colored_buffer@,
            textured_points: self.path_points_textured_buffer@,
            text: self.text_buffer@,
        }
    }

    /// Whether every buffer is empty.
    pub open spec fn is_empty(&self) -> bool {
        self.scratch() == ScratchView::empty()
    }

    proof fn lemma_empty(&self)
        requires
            self.intermediary_mesh.is_empty(),
            self.path_event_buffer@.len() == 0,
            self.path_points_colored_buffer@.len() == 0,
            self.path_points_textured_buffer@.len() == 0,
            self.text_buffer@.len() == 0,
        ensures
            self.is_empty(),
    {
        let e = ScratchView::empty();
        let c = self.scratch();
        assert(c.mesh_points =~= e.mesh_points);
        assert(c.mesh_colors =~= e.mesh_colors);
        assert(c.mesh_tex_coords =~= e.mesh_tex_coords);
        assert(c.mesh_indices =~= e.mesh_indices);
        assert(c.path_events =~= e.path_events);
        assert(c.colored_points =~= e.colored_points);
        assert(c.textured_points =~= e.textured_points);
        assert(c.text =~= e.text);
    }

    pub fn new() -> (r: IntermediaryState)
        ensures
            r.is_empty(),
    {
        let r = IntermediaryState {
            intermediary_mesh: Mesh::new(),
            path_event_buffer: Vec::new(),
            path_points_colored_buffer: Vec::new(),
            path_points_textured_buffer: Vec::new(),
            text_buffer: Vec::new(),
        };
        proof {
            r.lemma_empty();
        }
        r
    }

    /// Empty every buffer.
    pub fn reset(&mut self)
        ensures
            final(self).is_empty(),
    {
        self.intermediary_mesh.clear();
        self.path_event_buffer.clear();
        self.path_points_colored_buffer.clear();
        self.path_points_textured_buffer.clear();
        self.text_buffer.clear();
        proof {
            self.lemma_empty();
        }
    }
}

/// What a [`State`] holds, as mathematical values.
pub struct StateView {
    /// The context of the most recent context change, kept across drains.
    pub last_context: Option<Context>,
    /// The color the target is cleared with, if one was given.
    pub background: Option<Srgba>,
    /// The shapes still being configured, by the slot reserved for each.
    pub pending: Map<usize, Primitive>,
    /// The slots in drawing order: a command, or `None` while the slot's shape is pending.
    pub commands: Seq<Option<DrawCommand>>,
    /// What the scratch buffers hold.
    pub scratch: ScratchView,
}

impl StateView {
    /// The view of a fresh session.
    pub open spec fn fresh() -> StateView {
        StateView {
            last_context: None,
            background: None,
            pending: Map::empty(),
            commands: Seq::empty(),
            scratch: ScratchView::empty(),
        }
    }

    /// Each slot is either pending or holds a command, never both; context
    /// changes are not redundant, and the last of them is the remembered context.
    pub open spec fn wf(self) -> bool {
        &&& self.commands.len() <= usize::MAX
        &&& forall|k: usize| #[trigger]
            self.pending.contains_key(k) ==> k < self.commands.len() && self.commands[k as int] is None
        &&& forall|i: int|
            0 <= i < self.commands.len() && #[trigger] self.commands[i] is None
                ==> self.pending.contains_key(i as usize)
        &&& changes_not_redundant(self.commands)
        &&& forall|i: int| #[trigger]
            change_at(self.commands, i) && no_change_between(self.commands, i, self.commands.len() as int)
                ==> self.last_context == Some(context_at(self.commands, i))
    }

    /// The command each slot ends up holding once every pending shape is finished.
    pub open spec fn finalized(self) -> Seq<DrawCommand> {
        Seq::new(
            self.commands.len(),
            |i: int|
                match self.commands[i] {
                    Some(c) => c,
                    None => DrawCommand::Primitive(self.pending[i as usize]),
                },
        )
    }

    /// The state after the shape in slot `index` is finished, if it was pending.
    pub open spec fn finish_one(self, index: usize) -> StateView {
        if self.pending.contains_key(index) {
            StateView {
                commands: if index < self.commands.len() {
                    self.commands.update(index as int, Some(DrawCommand::Primitive(self.pending[index])))
                } else {
                    self.commands
                },
                pending: self.pending.remove(index),
                ..self
            }
        } else {
            self
        }
    }

    /// The state after every pending shape is finished.
    pub open spec fn finish_all(self) -> StateView {
        StateView { commands: as_slots(self.finalized()), pending: Map::empty(), ..self }
    }

    /// The state after the commands are drained.
    pub open spec fn drained(self) -> StateView {
        StateView { commands: Seq::empty(), pending: Map::empty(), ..self }
    }

    /// The state after a shape is started with the given context, and the slot reserved for it.
    pub open spec fn start(self, context: Context, prim: Primitive) -> (StateView, usize) {
        let v = if self.last_context == Some(context) {
            self
        } else {
            StateView {
                commands: self.commands.push(Some(DrawCommand::Context(context))),
                last_context: Some(context),
                ..self
            }
        };
        let index = v.commands.len() as usize;
        (StateView { commands: v.commands.push(None), pending: v.pending.insert(index, prim), ..v }, index)
    }

    /// The state after a polyline through `pts` is added to the path event buffer.
    pub open spec fn with_path_events(self, pts: Seq<Point2>) -> StateView {
        StateView {
            scratch: ScratchView { path_events: self.scratch.path_events + polyline_events(pts), ..self.scratch },
            ..self
        }
    }

    /// The state after `pts`, each with `color`, are added to the colored point buffer.
    pub open spec fn with_colored(self, pts: Seq<Point2>, color: Srgba) -> StateView {
        StateView {
            scratch: ScratchView { colored_points: self.scratch.colored_points + colored(pts, color), ..self.scratch },
            ..self
        }
    }

    /// The state after `pts` are added to the scratch mesh as vertices, each
    /// with its own index.
    pub open spec fn with_triangles(self, pts: Seq<Point3>) -> StateView {
        StateView {
            scratch: ScratchView {
                mesh_points: self.scratch.mesh_points + pts,
                mesh_indices: self.scratch.mesh_indices + sequential(self.scratch.mesh_points.len(), pts.len()),
                ..self.scratch
            },
            ..self
        }
    }

    /// The state after `text` is added to the text buffer.
    pub open spec fn with_text(self, text: Seq<char>) -> StateView {
        StateView { scratch: ScratchView { text: self.scratch.text + text, ..self.scratch }, ..self }
    }

    /// The state after the pending shape in slot `index` is changed by `f`, if it is pending.
    pub open spec fn map_pending(self, index: usize, f: spec_fn(Primitive) -> Primitive) -> StateView {
        if self.pending.contains_key(index) {
            StateView { pending: self.pending.insert(index, f(self.pending[index])), ..self }
        } else {
            self
        }
    }

    /// The state after the pending shape in slot `index` is replaced, if it is pending.
    pub open spec fn edit(self, index: usize, prim: Primitive) -> StateView {
        if self.pending.contains_key(index) {
            StateView { pending: self.pending.insert(index, prim), ..self }
        } else {
            self
        }
    }
}

/// The inner state of a drawing session, shared by all its handles.
#[derive(Debug)]
pub struct State {
    /// The context of the last context change, used to detect changes.
    last_draw_context: Option<Context>,
    /// If `Some`, the target is first cleared with this color.
    background_color: Option<Srgba>,
    /// Shapes in the process of being drawn, keyed by their slot in `draw_commands`.
    drawing: HashMap<usize, Primitive>,
    /// The recorded commands; a slot is `None` while its shape is being drawn.
    draw_commands: Vec<Option<DrawCommand>>,
    /// Scratch buffers for rendering.
    intermediary_state: IntermediaryState,
}

impl View for State {
    type V = StateView;

    closed spec fn view(&self) -> StateView {
        StateView {
            last_context: self.last_draw_context,
            background: self.background_color,
            pending: self.drawing@,
            commands: self.draw_commands@,
            scratch: self.intermediary_state.scratch(),
        }
    }
}

impl State {
    pub open spec fn wf(&self) -> bool {
        self@.wf()
    }

    pub fn new() -> (r: State)
        ensures
            r.wf(),
            r@ == StateView::fresh(),
    {
        let r = State {
            last_draw_context: None,
            background_color: None,
            drawing: HashMap::new(),
            draw_commands: Vec::new(),
            intermediary_state: IntermediaryState::new(),
        };
        assert(r@.pending =~= Map::empty());
        assert(r@.commands =~= Seq::empty());
        r
    }

    /// Record a new shape drawn with `context`: a context change first where
    /// the context differs from the last one, then a slot reserved for the
    /// shape, which stays pending until it is finished.
    pub(crate) fn start(&mut self, context: &Context, prim: Primitive) -> (index: usize)
        requires
            old(self).wf(),
            old(self)@.commands.len() + 2 <= usize::MAX,
        ensures
            final(self).wf(),
            (final(self)@, index) == old(self)@.start(*context, prim),
    {
        let ghost v = self@;
        let changed = match &self.last_draw_context {
            Some(last) => !last.same_as(context),
            None => true,
        };
        if changed {
            self.draw_commands.push(Some(DrawCommand::Context(context.copy())));
            self.last_draw_context = Some(context.copy());
        }
        let ghost v1 = self@;
        assert(v1 == (if v.last_context == Some(*context) { v } else {
            StateView {
                commands: v.commands.push(Some(DrawCommand::Context(*context))),
                last_context: Some(*context),
                ..v
            }
        }));
        proof {
            if v.last_context != Some(*context) {
                lemma_start_keeps_changes(v, *context);
            }
        }
        let index = self.draw_commands.len();
        self.draw_commands.push(None);
        self.drawing.insert(index, prim);
        proof {
            lemma_reserve_keeps_wf(v1, prim);
        }
        index
    }

    /// Finish the shape in slot `index`, if it is still pending.
    pub fn finish_drawing(&mut self, index: usize)
        requires
            old(self).wf(),
        ensures
            final(self).wf(),
            final(self)@ == old(self)@.finish_one(index),
    {
        let ghost v = self@;
        match self.drawing.remove(&index) {
            Some(prim) => {
                self.insert_draw_command(index, prim);
                proof {
                    lemma_finish_one_keeps_wf(v, index);
                }
            },
            None => {
                assert(self@.pending =~= v.pending);
            },
        }
    }

    /// Write the finished shape into its slot.
    fn insert_draw_command(&mut self, index: usize, prim: Primitive)
        ensures
            final(self)@ == (StateView {
                commands: if index < old(self)@.commands.len() {
                    old(self)@.commands.update(index as int, Some(DrawCommand::Primitive(prim)))
                } else {
                    old(self)@.commands
                },
                ..old(self)@
            }),
    {
        if index < self.draw_commands.len() {
            self.draw_commands.set(index, Some(DrawCommand::Primitive(prim)));
        }
    }

    /// Finish every shape still pending, each into its own slot.
    pub fn finish_remaining_drawings(&mut self)
        requires
            old(self).wf(),
        ensures
            final(self).wf(),
            final(self)@ == old(self)@.finish_all(),
    {
        let ghost v = self@;
        let ghost fin = v.finalized();
        let n = self.draw_commands.len();
        assert(fin.len() == n);
        let mut i: usize = 0;
        while i < n
            invariant
                0 <= i <= n,
                n == v.commands.len(),
                fin == v.finalized(),
                fin.len() == n,
                v.wf(),
                self.wf(),
                self@.commands.len() == n,
                self@.last_context == v.last_context,
                self@.background == v.background,
                self@.scratch == v.scratch,
                forall|k: int| 0 <= k < i ==> #[trigger] self@.commands[k] == Some(fin[k]),
                forall|k: int| i <= k < n ==> #[trigger] self@.commands[k] == v.commands[k],
                forall|k: usize| #[trigger]
                    self@.pending.contains_key(k) <==> (v.pending.contains_key(k) && k >= i),
                forall|k: usize| #[trigger]
                    self@.pending.contains_key(k) ==> self@.pending[k] == v.pending[k],
            decreases n - i,
        {
            let ghost before = self@;
            self.finish_drawing(i);
            proof {
                assert forall|k: usize| #[trigger]
                    self@.pending.contains_key(k) <==> (v.pending.contains_key(k) && k >= i + 1) by {
                }
                if v.commands[i as int] is None {
                    assert(v.pending.contains_key(i));
                    assert(self@.commands[i as int] == Some(fin[i as int]));
                } else {
                    assert(!v.pending.contains_key(i));
                    assert(self@.commands[i as int] == Some(fin[i as int]));
                }
            }
            i = i + 1;
        }
        assert(self@.commands =~= as_slots(fin));
        assert(self@.pending =~= Map::empty());
    }

    /// Finish every pending shape, then hand over all recorded commands in
    /// order, leaving none behind.
    pub fn drain_commands(&mut self) -> (r: Vec<DrawCommand>)
        requires
            old(self).wf(),
        ensures
            final(self).wf(),
            final(self)@ == old(self)@.drained(),
            r@ == old(self)@.finalized(),
            changes_not_redundant(as_slots(r@)),
    {
        let ghost v = self@;
        proof {
            lemma_drained_changes_not_redundant(v);
        }
        self.finish_remaining_drawings();
        let mut cmds: Vec<Option<DrawCommand>> = Vec::new();
        core::mem::swap(&mut self.draw_commands, &mut cmds);
        let mut out: Vec<DrawCommand> = Vec::new();
        let mut i: usize = 0;
        while i < cmds.len()
            invariant
                0 <= i <= cmds@.len(),
                cmds@ == as_slots(v.finalized()),
                out@ == v.finalized().subrange(0, i as int),
            decreases cmds@.len() - i,
        {
            match &cmds[i] {
                Some(c) => {
                    out.push(c.copy());
                },
                None => {},
            }
            assert(out@ =~= v.finalized().subrange(0, i + 1));
            i = i + 1;
        }
        assert(out@ =~= v.finalized());
        assert(self@.commands =~= Seq::empty());
        out
    }

    /// The shape pending in slot `index`, if any.
    pub fn pending_primitive(&self, index: usize) -> (r: Option<Primitive>)
        ensures
            r == (if self@.pending.contains_key(index) {
                Some(self@.pending[index])
            } else {
                None::<Primitive>
            }),
    {
        match self.drawing.get(&index) {
            Some(p) => Some(*p),
            None => None,
        }
    }

    /// Replace the shape pending in slot `index`; nothing happens where none is pending.
    pub(crate) fn edit_pending(&mut self, index: usize, prim: Primitive)
        requires
            old(self).wf(),
        ensures
            final(self).wf(),
            final(self)@ == old(self)@.edit(index, prim),
    {
        if self.drawing.contains_key(&index) {
            self.drawing.insert(index, prim);
        }
    }

    /// Clear the target with the given color before anything is drawn,
    /// replacing any color given before.
    pub fn set_background_color(&mut self, color: Srgba)
        requires
            old(self).wf(),
        ensures
            final(self).wf(),
            final(self)@ == (StateView { background: Some(color), ..old(self)@ }),
    {
        self.background_color = Some(color);
    }

    /// The color the target is cleared with, if one was given.
    pub fn background_color(&self) -> (r: Option<Srgba>)
        ensures
            r == self@.background,
    {
        self.background_color
    }

    /// The scratch buffers.
    pub fn intermediary_state(&self) -> (r: &IntermediaryState)
        ensures
            r.scratch() == self@.scratch,
    {
        &self.intermediary_state
    }

    /// Add a polyline through `pts` to the path event buffer; the span it takes.
    pub(crate) fn push_path_events(&mut self, pts: &Vec<Point2>) -> (span: Span)
        requires
            old(self).wf(),
        ensures
            final(self).wf(),
            final(self)@ == old(self)@.with_path_events(pts@),
            span == (Span {
                start: old(self)@.scratch.path_events.len() as usize,
                end: final(self)@.scratch.path_events.len() as usize,
            }),
    {
        let start = self.intermediary_state.path_event_buffer.len();
        append_polyline(&mut self.intermediary_state.path_event_buffer, pts);
        let end = self.intermediary_state.path_event_buffer.len();
        Span { start, end }
    }

    /// Add `pts`, each with `color`, to the colored point buffer; the span they take.
    pub(crate) fn push_colored_points(&mut self, pts: &Vec<Point2>, color: Srgba) -> (span: Span)
        requires
            old(self).wf(),
        ensures
            final(self).wf(),
            final(self)@ == old(self)@.with_colored(pts@, color),
            span == (Span {
                start: old(self)@.scratch.colored_points.len() as usize,
                end: final(self)@.scratch.colored_points.len() as usize,
            }),
    {
        let start = self.intermediary_state.path_points_colored_buffer.len();
        append_colored(&mut self.intermediary_state.path_points_colored_buffer, pts, color);
        let end = self.intermediary_state.path_points_colored_buffer.len();
        Span { start, end }
    }

    /// Add `pts` to the scratch mesh as vertices, each with its own index; the
    /// spans of vertices and indices they take.
    pub(crate) fn push_triangles(&mut self, pts: &Vec<Point3>) -> (spans: (Span, Span))
        requires
            old(self).wf(),
        ensures
            final(self).wf(),
            final(self)@ == old(self)@.with_triangles(pts@),
            spans == ((Span {
                start: old(self)@.scratch.mesh_points.len() as usize,
                end: final(self)@.scratch.mesh_points.len() as usize,
            }, Span {
                start: old(self)@.scratch.mesh_indices.len() as usize,
                end: final(self)@.scratch.mesh_indices.len() as usize,
            })),
    {
        let vstart = self.intermediary_state.intermediary_mesh.points.len();
        let istart = self.intermediary_state.intermediary_mesh.indices.len();
        append_triangles(&mut self.intermediary_state.intermediary_mesh, pts);
        let vend = self.intermediary_state.intermediary_mesh.points.len();
        let iend = self.intermediary_state.intermediary_mesh.indices.len();
        (Span { start: vstart, end: vend }, Span { start: istart, end: iend })
    }

    /// Add `text` to the text buffer; the span it takes.
    pub(crate) fn push_text(&mut self, text: &str) -> (span: Span)
        requires
            old(self).wf(),
        ensures
            final(self).wf(),
            final(self)@ == old(self)@.with_text(text@),
            span == (Span {
                start: old(self)@.scratch.text.len() as usize,
                end: final(self)@.scratch.text.len() as usize,
            }),
    {
        let start = self.intermediary_state.text_buffer.len();
        append_chars(&mut self.intermediary_state.text_buffer, text);
        let end = self.intermediary_state.text_buffer.len();
        Span { start, end }
    }

    /// Clear the background, the commands, the pending shapes and the scratch buffers.
    pub fn reset(&mut self)
        ensures
            final(self).wf(),
            final(self)@ == StateView::fresh(),
    {
        self.background_color = None;
        self.last_draw_context = None;
        self.drawing.clear();
        self.draw_commands.clear();
        self.intermediary_state.reset();
        assert(self@.pending =~= Map::empty());
        assert(self@.commands =~= Seq::empty());
    }
}

/// The commands a drain hands over hold no redundant context change: each
/// change is followed at once by a shape, and no change repeats the context of
/// the change before it.
pub proof fn lemma_drained_changes_not_redundant(v: StateView)
    requires
        v.wf(),
    ensures
        changes_not_redundant(as_slots(v.finalized())),
{
    let d = as_slots(v.finalized());
    let c = v.commands;
    assert(d.len() == c.len());
    assert forall|i: int| 0 <= i < c.len() implies change_in(#[trigger] d[i]) == change_in(c[i]) by {
        assert(d[i] == Some(v.finalized()[i]));
    }
    assert forall|i: int| #[trigger] change_at(d, i) <==> change_at(c, i) by {
        if 0 <= i < c.len() {
            assert(change_in(d[i]) == change_in(c[i]));
        }
    }
    assert forall|i: int| #[trigger] change_at(d, i) implies i + 1 < d.len() && !change_at(d, i + 1) by {
        assert(change_at(c, i));
    }
    assert forall|i: int, j: int|
        #![trigger change_at(d, i), change_at(d, j)]
        i < j && change_at(d, i) && change_at(d, j) && no_change_between(d, i, j)
            implies context_at(d, i) != context_at(d, j) by {
        assert(change_at(c, i));
        assert(change_at(c, j));
        assert(change_in(d[i]) == change_in(c[i]));
        assert(change_in(d[j]) == change_in(c[j]));
        assert(no_change_between(c, i, j)) by {
            assert forall|k: int| i < k < j implies !#[trigger] change_at(c, k) by {
                assert(!change_at(d, k));
            }
        }
    }
}

/// Two shapes started one after the other with the same context add no
/// context change between them: the second only reserves its slot.
pub proof fn lemma_same_context_no_change(v: StateView, context: Context, p: Primitive, q: Primitive)
    requires
        v.wf(),
    ensures
        ({
            let (w, i) = v.start(context, p);
            let (x, j) = w.start(context, q);
            &&& x.commands == w.commands.push(None)
            &&& x.last_context == Some(context)
        }),
{
}

/// Draining twice in a row: the second drain hands over nothing.
pub proof fn lemma_drain_exhausts(v: StateView)
    requires
        v.wf(),
    ensures
        v.drained().wf(),
        v.drained().finalized().len() == 0,
{
    let d = v.drained();
    assert forall|k: usize| #[trigger] d.pending.contains_key(k) implies false by {
    }
}

/// A shape still pending when the commands are drained is handed over, as
/// configured, in the slot reserved for it.
pub proof fn lemma_pending_is_drained(v: StateView, k: usize)
    requires
        v.wf(),
        v.pending.contains_key(k),
    ensures
        k < v.finalized().len(),
        v.finalized()[k as int] == DrawCommand::Primitive(v.pending[k]),
{
}

/// Starting a shape keeps a well-formed state well formed.
pub proof fn lemma_start_wf(v: StateView, context: Context, prim: Primitive)
    requires
        v.wf(),
        v.commands.len() + 2 <= usize::MAX,
    ensures
        v.start(context, prim).0.wf(),
{
    if v.last_context == Some(context) {
        lemma_reserve_keeps_wf(v, prim);
    } else {
        lemma_start_keeps_changes(v, context);
        let v1 = StateView {
            commands: v.commands.push(Some(DrawCommand::Context(context))),
            last_context: Some(context),
            ..v
        };
        assert forall|k: usize| #[trigger]
            v1.pending.contains_key(k) implies k < v1.commands.len() && v1.commands[k as int] is None by {
            assert(v1.commands[k as int] == v.commands[k as int]);
        }
        assert forall|i: int| 0 <= i < v1.commands.len() && #[trigger] v1.commands[i] is None
            implies v1.pending.contains_key(i as usize) by {
            if i < v.commands.len() {
                assert(v1.commands[i] == v.commands[i]);
            }
        }
        lemma_reserve_keeps_wf(v1, prim);
    }
}

/// Pushing a context change that differs from the remembered context keeps
/// the changes non-redundant.
proof fn lemma_start_keeps_changes(v: StateView, context: Context)
    requires
        v.wf(),
        v.last_context != Some(context),
    ensures
        ({
            let c = v.commands.push(Some(DrawCommand::Context(context)));
            &&& forall|i: int, j: int|
                #![trigger change_at(c, i), change_at(c, j)]
                i < j && change_at(c, i) && change_at(c, j) && no_change_between(c, i, j)
                    ==> context_at(c, i) != context_at(c, j)
            &&& forall|i: int| #[trigger] change_at(c, i) && i + 1 < c.len() ==> !change_at(c, i + 1)
            &&& forall|i: int| #[trigger]
                change_at(c, i) && no_change_between(c, i, c.len() as int)
                    ==> Some(context) == Some(context_at(c, i))
        }),
{
    let c = v.commands.push(Some(DrawCommand::Context(context)));
    let n = v.commands.len() as int;
    assert forall|i: int| #[trigger] change_at(c, i) && i < n <==> change_at(v.commands, i) by {
        if 0 <= i < n {
            assert(c[i] == v.commands[i]);
        }
    }
    assert forall|i: int, j: int|
        #![trigger change_at(c, i), change_at(c, j)]
        i < j && change_at(c, i) && change_at(c, j) && no_change_between(c, i, j)
            implies context_at(c, i) != context_at(c, j) by {
        assert(change_at(v.commands, i));
        if j < n {
            assert(change_at(v.commands, j));
            assert(no_change_between(v.commands, i, j)) by {
                assert forall|k: int| i < k < j implies !#[trigger] change_at(v.commands, k) by {
                    assert(!change_at(c, k));
                }
            }
            assert(c[i] == v.commands[i]);
            assert(c[j] == v.commands[j]);
        } else {
            assert(j == n);
            assert(no_change_between(v.commands, i, n)) by {
                assert forall|k: int| i < k < n implies !#[trigger] change_at(v.commands, k) by {
                    assert(!change_at(c, k));
                }
            }
            assert(c[i] == v.commands[i]);
            assert(context_at(c, j) == context);
        }
    }
    assert forall|i: int| #[trigger] change_at(c, i) && i + 1 < c.len() implies !change_at(c, i + 1) by {
        assert(change_at(v.commands, i));
        if i + 1 < n {
            assert(c[i + 1] == v.commands[i + 1]);
        } else {
            assert(i + 1 < v.commands.len());
        }
    }
    assert forall|i: int| #[trigger]
        change_at(c, i) && no_change_between(c, i, c.len() as int)
            implies Some(context) == Some(context_at(c, i)) by {
        if i < n {
            assert(change_at(c, n));
        }
    }
}

/// Reserving a slot for a pending shape after an optional context change
/// keeps the state well formed.
proof fn lemma_reserve_keeps_wf(v1: StateView, prim: Primitive)
    requires
        v1.commands.len() < usize::MAX,
        forall|k: usize| #[trigger]
            v1.pending.contains_key(k) ==> k < v1.commands.len() && v1.commands[k as int] is None,
        forall|i: int|
            0 <= i < v1.commands.len() && #[trigger] v1.commands[i] is None
                ==> v1.pending.contains_key(i as usize),
        forall|i: int, j: int|
            #![trigger change_at(v1.commands, i), change_at(v1.commands, j)]
            i < j && change_at(v1.commands, i) && change_at(v1.commands, j)
                && no_change_between(v1.commands, i, j)
                ==> context_at(v1.commands, i) != context_at(v1.commands, j),
        forall|i: int| #[trigger]
            change_at(v1.commands, i) && i + 1 < v1.commands.len() ==> !change_at(v1.commands, i + 1),
        forall|i: int| #[trigger]
            change_at(v1.commands, i) && no_change_between(v1.commands, i, v1.commands.len() as int)
                ==> v1.last_context == Some(context_at(v1.commands, i)),
    ensures
        ({
            let index = v1.commands.len() as usize;
            StateView { commands: v1.commands.push(None), pending: v1.pending.insert(index, prim), ..v1 }.wf()
        }),
{
    let index = v1.commands.len() as usize;
    let n = v1.commands.len() as int;
    let w = StateView { commands: v1.commands.push(None), pending: v1.pending.insert(index, prim), ..v1 };
    let c = w.commands;
    assert forall|i: int| #[trigger] change_at(c, i) <==> change_at(v1.commands, i) by {
        if 0 <= i < n {
            assert(c[i] == v1.commands[i]);
        }
    }
    assert forall|k: usize| #[trigger]
        w.pending.contains_key(k) implies k < c.len() && c[k as int] is None by {
        if k != index {
            assert(v1.pending.contains_key(k));
        }
    }
    assert forall|i: int| 0 <= i < c.len() && #[trigger] c[i] is None implies w.pending.contains_key(i as usize) by {
        if i < n {
            assert(v1.commands[i] is None);
        }
    }
    assert forall|i: int| #[trigger] change_at(c, i) implies i + 1 < c.len() && !change_at(c, i + 1) by {
        assert(change_at(v1.commands, i));
    }
    assert forall|i: int, j: int|
        #![trigger change_at(c, i), change_at(c, j)]
        i < j && change_at(c, i) && change_at(c, j) && no_change_between(c, i, j)
            implies context_at(c, i) != context_at(c, j) by {
        assert(change_at(v1.commands, i));
        assert(change_at(v1.commands, j));
        assert(c[i] == v1.commands[i]);
        assert(c[j] == v1.commands[j]);
        assert(no_change_between(v1.commands, i, j)) by {
            assert forall|k: int| i < k < j implies !#[trigger] change_at(v1.commands, k) by {
                assert(!change_at(c, k));
            }
        }
    }
    assert forall|i: int| #[trigger]
        change_at(c, i) && no_change_between(c, i, c.len() as int)
            implies w.last_context == Some(context_at(c, i)) by {
        assert(change_at(v1.commands, i));
        assert(c[i] == v1.commands[i]);
        assert(no_change_between(v1.commands, i, n)) by {
            assert forall|k: int| i < k < n implies !#[trigger] change_at(v1.commands, k) by {
                assert(!change_at(c, k));
            }
        }
    }
}

/// Finishing one pending shape keeps the state well formed.
proof fn lemma_finish_one_keeps_wf(v: StateView, index: usize)
    requires
        v.wf(),
    ensures
        v.finish_one(index).wf(),
        forall|i: int| #[trigger] change_at(v.finish_one(index).commands, i) <==> change_at(v.commands, i),
{
    let w = v.finish_one(index);
    let c = w.commands;
    let n = c.len() as int;
    assert(c.len() == v.commands.len());
    assert forall|i: int| #[trigger] change_at(c, i) <==> change_at(v.commands, i) by {
        if 0 <= i < c.len() && i != index {
            assert(c[i] == v.commands[i]);
        }
    }
    assert forall|i: int| #[trigger] change_at(c, i) implies context_at(c, i) == context_at(v.commands, i) by {
        if i != index {
            assert(c[i] == v.commands[i]);
        }
    }
    assert forall|i: int, j: int| #[trigger] no_change_between(c, i, j) <==> no_change_between(v.commands, i, j) by {
        if no_change_between(c, i, j) {
            assert forall|k: int| i < k < j implies !#[trigger] change_at(v.commands, k) by {
                assert(!change_at(c, k));
            }
        }
        if no_change_between(v.commands, i, j) {
            assert forall|k: int| i < k < j implies !#[trigger] change_at(c, k) by {
                assert(!change_at(v.commands, k));
            }
        }
    }
    assert forall|k: usize| #[trigger] w.pending.contains_key(k) implies k < c.len() && c[k as int] is None by {
        assert(v.pending.contains_key(k));
        if v.pending.contains_key(index) {
            assert(k != index);
        }
    }
    assert forall|i: int| 0 <= i < c.len() && #[trigger] c[i] is None implies w.pending.contains_key(i as usize) by {
        if v.pending.contains_key(index) {
            assert(i != index);
            assert(v.commands[i] == c[i]);
            assert(v.pending.contains_key(i as usize));
            assert(i as usize != index);
        }
    }
    assert(changes_not_redundant(c)) by {
        assert forall|i: int| #[trigger] change_at(c, i) implies i + 1 < c.len() && !change_at(c, i + 1) by {
            assert(change_at(v.commands, i));
        }
        assert forall|i: int, j: int|
            #![trigger change_at(c, i), change_at(c, j)]
            i < j && change_at(c, i) && change_at(c, j) && no_change_between(c, i, j)
                implies context_at(c, i) != context_at(c, j) by {
            assert(change_at(v.commands, i));
            assert(change_at(v.commands, j));
            assert(no_change_between(v.commands, i, j));
        }
    }
    assert forall|i: int| #[trigger]
        change_at(c, i) && no_change_between(c, i, n) implies w.last_context == Some(context_at(c, i)) by {
        assert(change_at(v.commands, i));
        assert(no_change_between(v.commands, i, n));
    }
}

} // verus!
