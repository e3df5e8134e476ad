use vstd::prelude::*;

use crate::command::{layer_rank, RenderCommand, RenderLayer, RenderType};

verus! {

/// The commands of `cmds` that lie on `layer`, in arrival order.
pub open spec fn layer_cmds<T>(cmds: Seq<RenderCommand<T>>, layer: RenderLayer) -> Seq<RenderCommand<T>>
    decreases cmds.len(),
{
    if cmds.len() == 0 {
        Seq::empty()
    } else {
        let rest = layer_cmds(cmds.drop_last(), layer);
        if cmds.last().render_layer == layer {
            rest.push(cmds.last())
        } else {
            rest
        }
    }
}

/// The commands in draw order: background, middle, foreground, each layer
/// in arrival order.
pub open spec fn ordered_cmds<T>(cmds: Seq<RenderCommand<T>>) -> Seq<RenderCommand<T>> {
    layer_cmds(cmds, RenderLayer::Background) + layer_cmds(cmds, RenderLayer::Middle)
        + layer_cmds(cmds, RenderLayer::Foreground)
}

/// What is to be drawn for each of `cmds`.
pub open spec fn types_of<T>(cmds: Seq<RenderCommand<T>>) -> Seq<RenderType<T>> {
    cmds.map_values(|c: RenderCommand<T>| c.render_type)
}

/// What the drawing context receives for `cmds`.
pub open spec fn draw_order<T>(cmds: Seq<RenderCommand<T>>) -> Seq<RenderType<T>> {
    types_of(ordered_cmds(cmds))
}

proof fn lemma_types_of_push<T>(cmds: Seq<RenderCommand<T>>, c: RenderCommand<T>)
    ensures
        types_of(cmds.push(c)) == types_of(cmds).push(c.render_type),
{
    assert(types_of(cmds.push(c)) =~= types_of(cmds).push(c.render_type));
}

proof fn lemma_types_of_add<T>(a: Seq<RenderCommand<T>>, b: Seq<RenderCommand<T>>)
    ensures
        types_of(a + b) == types_of(a) + types_of(b),
{
    assert(types_of(a + b) =~= types_of(a) + types_of(b));
}

/// Immediate-mode drawing context: the draw operations of one frame, in the
/// order they are to be drawn.
pub struct DrawContext<T> {
    ops: Vec<RenderType<T>>,
}

impl<T> View for DrawContext<T> {
    type V = Seq<RenderType<T>>;

    closed spec fn view(&self) -> Seq<RenderType<T>> {
        self.ops@
    }
}

impl<T> DrawContext<T> {
    pub fn new() -> (r: DrawContext<T>)
        ensures
            r@ == Seq::<RenderType<T>>::empty(),
    {
        DrawContext { ops: Vec::new() }
    }

    pub fn is_empty(&self) -> (r: bool)
        ensures
            r == (self@.len() == 0),
    {
        self.ops.len() == 0
    }

    pub fn len(&self) -> (r: usize)
        ensures
            r == self@.len(),
    {
        self.ops.len()
    }

    /// Consumes the recorded operations for upload, leaving the context empty.
    pub fn take_ops(&mut self) -> (r: Vec<RenderType<T>>)
        ensures
            r@ == old(self)@,
            final(self)@ == Seq::<RenderType<T>>::empty(),
    {
        let mut ops: Vec<RenderType<T>> = Vec::new();
        std::mem::swap(&mut ops, &mut self.ops);
        ops
    }
}

/// Draws one element to the context.
pub fn execute_render_command<T>(ctx: &mut DrawContext<T>, command: RenderCommand<T>)
    ensures
        final(ctx)@ == old(ctx)@.push(command.render_type),
{
    ctx.ops.push(command.render_type);
}

/// Draws this frame's commands to the context in the order of their layers,
/// keeping arrival order within a layer.
pub fn prepare_frame<T>(ctx: &mut DrawContext<T>, commands: Vec<RenderCommand<T>>)
    ensures
        final(ctx)@ == old(ctx)@ + draw_order(commands@),
{
    let ghost s = commands@;
    let n = commands.len();
    let mut commands = commands;
    let mut rev: Vec<RenderCommand<T>> = Vec::new();
    while commands.len() > 0
        invariant
            n == s.len(),
            commands.len() + rev.len() == n,
            commands@ == s.take(commands.len() as int),
            forall|j: int| 0 <= j < rev.len() ==> #[trigger] rev@[j] == s[n - 1 - j],
        decreases commands.len(),
    {
        let c = commands.pop().unwrap();
        rev.push(c);
    }
    let mut background: Vec<RenderType<T>> = Vec::new();
    let mut middle: Vec<RenderType<T>> = Vec::new();
    let mut foreground: Vec<RenderType<T>> = Vec::new();
    while rev.len() > 0
        invariant
            n == s.len(),
            rev.len() <= n,
            forall|j: int| 0 <= j < rev.len() ==> #[trigger] rev@[j] == s[n - 1 - j],
            background@ == types_of(layer_cmds(s.take(n - rev.len()), RenderLayer::Background)),
            middle@ == types_of(layer_cmds(s.take(n - rev.len()), RenderLayer::Middle)),
            foreground@ == types_of(layer_cmds(s.take(n - rev.len()), RenderLayer::Foreground)),
        decreases rev.len(),
    {
        let ghost i = n - rev.len();
        let c = rev.pop().unwrap();
        assert(c == s[i]);
        assert(s.take(i + 1).drop_last() == s.take(i));
        proof {
            lemma_types_of_push(layer_cmds(s.take(i), c.render_layer), c);
        }
        match c.render_layer {
            RenderLayer::Background => background.push(c.render_type),
            RenderLayer::Middle => middle.push(c.render_type),
            RenderLayer::Foreground => foreground.push(c.render_type),
        }
    }
    assert(s.take(n as int) == s);
    proof {
        lemma_types_of_add(layer_cmds(s, RenderLayer::Background), layer_cmds(s, RenderLayer::Middle));
        lemma_types_of_add(
            layer_cmds(s, RenderLayer::Background) + layer_cmds(s, RenderLayer::Middle),
            layer_cmds(s, RenderLayer::Foreground),
        );
    }
    ctx.ops.append(&mut background);
    ctx.ops.append(&mut middle);
    ctx.ops.append(&mut foreground);
    assert(ctx@ =~= old(ctx)@ + draw_order(s));
}

proof fn lemma_layer_cmds_on_layer<T>(cmds: Seq<RenderCommand<T>>, layer: RenderLayer)
    ensures
        forall|i: int|
            0 <= i < layer_cmds(cmds, layer).len() ==> (#[trigger] layer_cmds(cmds, layer)[i]).render_layer
                == layer,
    decreases cmds.len(),
{
    if cmds.len() > 0 {
        lemma_layer_cmds_on_layer(cmds.drop_last(), layer);
    }
}

proof fn lemma_layer_cmds_add<T>(a: Seq<RenderCommand<T>>, b: Seq<RenderCommand<T>>, layer: RenderLayer)
    ensures
        layer_cmds(a + b, layer) == layer_cmds(a, layer) + layer_cmds(b, layer),
    decreases b.len(),
{
    if b.len() == 0 {
        assert(a + b =~= a);
        assert(layer_cmds(a, layer) + layer_cmds(b, layer) =~= layer_cmds(a, layer));
    } else {
        assert((a + b).drop_last() =~= a + b.drop_last());
        lemma_layer_cmds_add(a, b.drop_last(), layer);
        assert((a + b).last() == b.last());
        assert(layer_cmds(a, layer) + layer_cmds(b.drop_last(), layer).push(b.last()) =~= (
        layer_cmds(a, layer) + layer_cmds(b.drop_last(), layer)).push(b.last()));
    }
}

proof fn lemma_layer_cmds_twice<T>(cmds: Seq<RenderCommand<T>>, outer: RenderLayer, inner: RenderLayer)
    ensures
        layer_cmds(layer_cmds(cmds, inner), outer) == if outer == inner {
            layer_cmds(cmds, inner)
        } else {
            Seq::<RenderCommand<T>>::empty()
        },
    decreases cmds.len(),
{
    if cmds.len() > 0 {
        lemma_layer_cmds_twice(cmds.drop_last(), outer, inner);
        let rest = layer_cmds(cmds.drop_last(), inner);
        if cmds.last().render_layer == inner {
            assert(rest.push(cmds.last()).drop_last() =~= rest);
        }
    }
}

proof fn lemma_layer_cmds_multiset<T>(cmds: Seq<RenderCommand<T>>)
    ensures
        layer_cmds(cmds, RenderLayer::Background).to_multiset().add(
            layer_cmds(cmds, RenderLayer::Middle).to_multiset(),
        ).add(layer_cmds(cmds, RenderLayer::Foreground).to_multiset()) == cmds.to_multiset(),
    decreases cmds.len(),
{
    broadcast use vstd::seq_lib::group_to_multiset_ensures;
    broadcast use vstd::multiset::group_multiset_axioms;

    if cmds.len() == 0 {
        assert(layer_cmds(cmds, RenderLayer::Background).to_multiset().add(
            layer_cmds(cmds, RenderLayer::Middle).to_multiset(),
        ).add(layer_cmds(cmds, RenderLayer::Foreground).to_multiset()) =~= cmds.to_multiset());
    } else {
        let p = cmds.drop_last();
        lemma_layer_cmds_multiset(p);
        assert(p.push(cmds.last()) == cmds);
        assert(layer_cmds(cmds, RenderLayer::Background).to_multiset().add(
            layer_cmds(cmds, RenderLayer::Middle).to_multiset(),
        ).add(layer_cmds(cmds, RenderLayer::Foreground).to_multiset()) =~= cmds.to_multiset());
    }
}

/// Draw order is a stable partition by layer: each command is drawn exactly
/// once, layers never go back along the order (background, then middle, then
/// foreground), and the commands of each layer keep their arrival order.
pub proof fn lemma_draw_order_layered<T>(cmds: Seq<RenderCommand<T>>)
    ensures
        ordered_cmds(cmds).to_multiset() == cmds.to_multiset(),
        forall|i: int, j: int|
            0 <= i < j < ordered_cmds(cmds).len() ==> layer_rank(
                (#[trigger] ordered_cmds(cmds)[i]).render_layer,
            ) <= layer_rank((#[trigger] ordered_cmds(cmds)[j]).render_layer),
        forall|l: RenderLayer| #[trigger] layer_cmds(ordered_cmds(cmds), l) == layer_cmds(cmds, l),
        draw_order(cmds) == types_of(ordered_cmds(cmds)),
{
    let bg = layer_cmds(cmds, RenderLayer::Background);
    let mid = layer_cmds(cmds, RenderLayer::Middle);
    let fg = layer_cmds(cmds, RenderLayer::Foreground);
    let o = ordered_cmds(cmds);
    lemma_layer_cmds_multiset(cmds);
    vstd::seq_lib::lemma_multiset_commutative(bg, mid);
    vstd::seq_lib::lemma_multiset_commutative(bg + mid, fg);
    lemma_layer_cmds_on_layer(cmds, RenderLayer::Background);
    lemma_layer_cmds_on_layer(cmds, RenderLayer::Middle);
    lemma_layer_cmds_on_layer(cmds, RenderLayer::Foreground);
    assert forall|i: int, j: int| 0 <= i < j < o.len() implies layer_rank(
        (#[trigger] o[i]).render_layer,
    ) <= layer_rank((#[trigger] o[j]).render_layer) by {
        if i < bg.len() {
            assert(o[i] == bg[i]);
        } else if i < bg.len() + mid.len() {
            assert(o[i] == mid[i - bg.len()]);
            assert(j >= bg.len());
            if j < bg.len() + mid.len() {
                assert(o[j] == mid[j - bg.len()]);
            } else {
                assert(o[j] == fg[j - bg.len() - mid.len()]);
            }
        } else {
            assert(o[i] == fg[i - bg.len() - mid.len()]);
            assert(o[j] == fg[j - bg.len() - mid.len()]);
        }
    }
    assert forall|l: RenderLayer| #[trigger] layer_cmds(o, l) == layer_cmds(cmds, l) by {
        lemma_layer_cmds_add(bg, mid, l);
        lemma_layer_cmds_add(bg + mid, fg, l);
        lemma_layer_cmds_twice(cmds, l, RenderLayer::Background);
        lemma_layer_cmds_twice(cmds, l, RenderLayer::Middle);
        lemma_layer_cmds_twice(cmds, l, RenderLayer::Foreground);
        match l {
            RenderLayer::Background => {
                assert(layer_cmds(o, l) =~= bg);
            },
            RenderLayer::Middle => {
                assert(layer_cmds(o, l) =~= mid);
            },
            RenderLayer::Foreground => {
                assert(layer_cmds(o, l) =~= fg);
            },
        }
    }
}

} // verus!
