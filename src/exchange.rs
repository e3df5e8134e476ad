use vstd::prelude::*;

verus! {

/// The render side's world while it is lent to the application side for
/// the extract stage: the only time producers write extracted data.
pub struct RenderWorld<W>(pub W);

/// The spare world the application side keeps between extracts, so that no
/// world is allocated per frame.
pub struct ScratchRenderWorld<W>(pub W);

/// One exchange of storages across the boundary: the side that gives `given`
/// receives `held`, and the other side keeps `given` in its place.
pub open spec fn exchange<W>(held: W, given: W) -> (W, W) {
    (given, held)
}

/// Before extract: the render side lends its world to the application side
/// and keeps the application's scratch world meanwhile.
pub fn lend_render_world<W>(render_side: &mut W, scratch: ScratchRenderWorld<W>) -> (r: RenderWorld<W>)
    ensures
        (*final(render_side), r.0) == exchange(*old(render_side), scratch.0),
{
    let ScratchRenderWorld(world) = scratch;
    let mut world = world;
    std::mem::swap(render_side, &mut world);
    RenderWorld(world)
}

/// After extract: the render side takes back its now filled world and hands
/// the scratch world back to the application side.
pub fn reclaim_render_world<W>(render_side: &mut W, lent: RenderWorld<W>) -> (r: ScratchRenderWorld<W>)
    ensures
        (*final(render_side), r.0) == exchange(*old(render_side), lent.0),
{
    let RenderWorld(world) = lent;
    let mut world = world;
    std::mem::swap(render_side, &mut world);
    ScratchRenderWorld(world)
}

/// Each exchange moves the two storages and never copies or drops one: the
/// render side and the application side together hold the same two storages
/// before and after. Over a whole extract the render side ends up with the
/// world the producers filled and the application side with its scratch
/// world again.
pub proof fn lemma_exchange_exclusive<W>(render: W, scratch: W, filled: W)
    ensures
        seq![exchange(render, scratch).0, exchange(render, scratch).1].to_multiset() == seq![
            render,
            scratch,
        ].to_multiset(),
        exchange(exchange(render, scratch).0, filled) == (filled, scratch),
{
    broadcast use vstd::seq_lib::group_to_multiset_ensures;
    broadcast use vstd::multiset::group_multiset_axioms;

    assert(seq![scratch, render] == seq![scratch].push(render));
    assert(seq![render, scratch] == seq![render].push(scratch));
    assert(seq![scratch] == Seq::<W>::empty().push(scratch));
    assert(seq![render] == Seq::<W>::empty().push(render));
    assert(seq![scratch, render].to_multiset() =~= seq![render, scratch].to_multiset());
}

} // verus!
