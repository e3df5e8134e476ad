use vstd::prelude::*;

use std::collections::HashSet;

use crate::command::{RenderCommand, RenderLayer, RenderType};

verus! {

/// What is extracted of one vector image instance to draw it: its resolved
/// transform, its depth as an order-preserving integer key, and the identity
/// of its image asset.
#[derive(Clone, Copy)]
pub struct ExtractedVecImgInstance<T> {
    pub transform: T,
    pub depth: i64,
    pub vec_image_handle_id: u64,
}

/// All vector image instances extracted in the current frame.
pub struct ExtractedVecImgInstances<T> {
    pub instances: Vec<ExtractedVecImgInstance<T>>,
}

/// Draw order of instances: by depth, back to front, then by image so that
/// draws of one image batch together.
pub open spec fn instance_le<T>(a: ExtractedVecImgInstance<T>, b: ExtractedVecImgInstance<T>) -> bool {
    a.depth < b.depth || (a.depth == b.depth && a.vec_image_handle_id <= b.vec_image_handle_id)
}

pub open spec fn instances_sorted<T>(s: Seq<ExtractedVecImgInstance<T>>) -> bool {
    forall|i: int, j: int| 0 <= i < j < s.len() ==> instance_le(#[trigger] s[i], #[trigger] s[j])
}

/// The draw command for an instance: the image on the middle layer.
pub open spec fn instance_command<T>(inst: ExtractedVecImgInstance<T>) -> RenderCommand<T> {
    RenderCommand {
        render_type: RenderType::Shape(inst.vec_image_handle_id, inst.transform),
        render_layer: RenderLayer::Middle,
    }
}

/// The commands for the instances whose image is loaded, in order.
pub open spec fn instance_commands<T>(s: Seq<ExtractedVecImgInstance<T>>, loaded: Set<u64>) -> Seq<
    RenderCommand<T>,
>
    decreases s.len(),
{
    if s.len() == 0 {
        Seq::empty()
    } else {
        let rest = instance_commands(s.drop_last(), loaded);
        if loaded.contains(s.last().vec_image_handle_id) {
            rest.push(instance_command(s.last()))
        } else {
            rest
        }
    }
}

/// Copies each instance out of the application state, in query order; a
/// query item is the transform, the depth key and the image identity.
pub fn extract_vec_img_instances<T: Copy>(query: &Vec<(T, i64, u64)>) -> (r: ExtractedVecImgInstances<T>)
    ensures
        r.instances@.len() == query@.len(),
        forall|i: int|
            0 <= i < query@.len() ==> #[trigger] r.instances@[i] == (ExtractedVecImgInstance {
                transform: query@[i].0,
                depth: query@[i].1,
                vec_image_handle_id: query@[i].2,
            }),
{
    let mut instances: Vec<ExtractedVecImgInstance<T>> = Vec::new();
    let mut i: usize = 0;
    while i < query.len()
        invariant
            i <= query@.len(),
            instances@.len() == i,
            forall|j: int|
                0 <= j < i ==> #[trigger] instances@[j] == (ExtractedVecImgInstance {
                    transform: query@[j].0,
                    depth: query@[j].1,
                    vec_image_handle_id: query@[j].2,
                }),
        decreases query@.len() - i,
    {
        let (transform, depth, vec_image_handle_id) = query[i];
        instances.push(ExtractedVecImgInstance { transform, depth, vec_image_handle_id });
        i = i + 1;
    }
    ExtractedVecImgInstances { instances }
}

fn instance_le_exec<T: Copy>(a: &ExtractedVecImgInstance<T>, b: &ExtractedVecImgInstance<T>) -> (r: bool)
    ensures
        r == instance_le(*a, *b),
{
    a.depth < b.depth || (a.depth == b.depth && a.vec_image_handle_id <= b.vec_image_handle_id)
}

/// Sorts instances by depth, then by image; instances equal in both keep
/// their order.
pub fn sort_instances<T: Copy>(instances: &mut Vec<ExtractedVecImgInstance<T>>)
    ensures
        instances_sorted(final(instances)@),
        final(instances)@.to_multiset() == old(instances)@.to_multiset(),
{
    broadcast use vstd::seq_lib::group_to_multiset_ensures;

    let ghost s = instances@;
    let mut sorted: Vec<ExtractedVecImgInstance<T>> = Vec::new();
    let mut i: usize = 0;
    while i < instances.len()
        invariant
            instances@ == s,
            i <= s.len(),
            instances_sorted(sorted@),
            sorted@.to_multiset() == s.take(i as int).to_multiset(),
        decreases s.len() - i,
    {
        let x = instances[i];
        let mut pos: usize = sorted.len();
        while pos > 0 && instance_le_exec(&x, &sorted[pos - 1]) && !instance_le_exec(&sorted[pos - 1], &x)
            invariant
                pos <= sorted@.len(),
                forall|k: int| pos <= k < sorted@.len() ==> !instance_le(#[trigger] sorted@[k], x),
            decreases pos,
        {
            pos = pos - 1;
        }
        proof {
            // everything before `pos` orders before `x`: either the scan stopped
            // on such an element or the sorted prefix puts it earlier
            assert forall|k: int| 0 <= k < pos implies instance_le(#[trigger] sorted@[k], x) by {
                assert(instance_le(sorted@[k], sorted@[pos - 1]));
            }
        }
        let ghost before = sorted@;
        sorted.insert(pos, x);
        proof {
            assert(sorted@ == before.insert(pos as int, x));
            assert forall|a: int, b: int| 0 <= a < b < sorted@.len() implies instance_le(
                #[trigger] sorted@[a],
                #[trigger] sorted@[b],
            ) by {
                if b < pos {
                } else if b == pos {
                } else if a < pos {
                    assert(instance_le(before[a], x));
                    assert(!instance_le(before[b - 1], x));
                } else if a == pos {
                    assert(!instance_le(before[b - 1], x));
                } else {
                    assert(sorted@[a] == before[a - 1]);
                }
            }
            assert(s.take(i + 1) == s.take(i as int).push(s[i as int]));
            vstd::seq_lib::to_multiset_insert(before, pos as int, x);
            vstd::seq_lib::to_multiset_build(s.take(i as int), s[i as int]);
        }
        i = i + 1;
    }
    assert(s.take(s.len() as int) == s);
    *instances = sorted;
}

/// Sorts this frame's instances for compositing and batching, then emits a
/// middle-layer draw command for each instance whose image is loaded.
pub fn prepare_vector_images<T: Copy>(
    extracted_app_world_vecs: &mut ExtractedVecImgInstances<T>,
    vec_images: &HashSet<u64>,
    render_commands: &mut Vec<RenderCommand<T>>,
)
    ensures
        instances_sorted(final(extracted_app_world_vecs).instances@),
        final(extracted_app_world_vecs).instances@.to_multiset() == old(
            extracted_app_world_vecs,
        ).instances@.to_multiset(),
        final(render_commands)@ == old(render_commands)@ + instance_commands(
            final(extracted_app_world_vecs).instances@,
            vec_images@,
        ),
{
    broadcast use vstd::std_specs::hash::group_hash_axioms;

    sort_instances(&mut extracted_app_world_vecs.instances);
    let ghost s = extracted_app_world_vecs.instances@;
    let ghost start = render_commands@;
    let mut i: usize = 0;
    while i < extracted_app_world_vecs.instances.len()
        invariant
            s == extracted_app_world_vecs.instances@,
            i <= s.len(),
            render_commands@ == start + instance_commands(s.take(i as int), vec_images@),
        decreases s.len() - i,
    {
        let extracted = extracted_app_world_vecs.instances[i];
        assert(s.take(i + 1).drop_last() == s.take(i as int));
        if vec_images.contains(&extracted.vec_image_handle_id) {
            let render_type = RenderType::Shape(extracted.vec_image_handle_id, extracted.transform);
            render_commands.push(RenderCommand::new(render_type, RenderLayer::Middle));
        }
        i = i + 1;
    }
    assert(s.take(s.len() as int) == s);
}

} // verus!
