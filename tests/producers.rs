use std::collections::HashSet;

use bevy_piet::{
    extract_text_labels, extract_vec_img_instances, extract_vec_img_render_assets,
    lend_render_world, prepare_text_labels, prepare_vector_images, reclaim_render_world,
    sort_instances, AssetEvent, ExtractedVecImgInstance, RenderCommand, RenderLayer, RenderType,
    ScratchRenderWorld, SvgAssetLoader, TextLabel,
};

#[test]
fn text_labels_become_foreground_text() {
    let query = vec![
        (TextLabel { text: "Hello world".to_string() }, (125.0f32, 160.0f32)),
        (TextLabel { text: "second".to_string() }, (1.0f32, 2.0f32)),
    ];
    let extracted = extract_text_labels(&query);
    assert_eq!(extracted.text_labels.len(), 2);
    assert_eq!(extracted.text_labels[0].text, "Hello world");
    assert_eq!(extracted.text_labels[1].transform, (1.0, 2.0));

    let mut commands: Vec<RenderCommand<(f32, f32)>> = Vec::new();
    prepare_text_labels(&extracted, &mut commands);
    assert_eq!(commands.len(), 2);
    for (c, expected) in commands.iter().zip(["Hello world", "second"]) {
        assert_eq!(c.render_layer, RenderLayer::Foreground);
        match &c.render_type {
            RenderType::Text(s, _) => assert_eq!(s, expected),
            RenderType::Shape(..) => panic!("expected text"),
        }
    }
}

#[test]
fn vector_instances_sorted_by_depth_then_image() {
    let query = vec![((0u8, 'a'), 5i64, 2u64), ((0, 'b'), -1, 9), ((0, 'c'), 5, 1), ((0, 'd'), -1, 3)];
    let mut extracted = extract_vec_img_instances(&query);
    assert_eq!(extracted.instances.len(), 4);
    sort_instances(&mut extracted.instances);
    let order: Vec<char> = extracted.instances.iter().map(|i| i.transform.1).collect();
    assert_eq!(order, vec!['d', 'b', 'c', 'a']);
}

#[test]
fn equal_keys_keep_their_order() {
    let mut instances = vec![
        ExtractedVecImgInstance { transform: 'x', depth: 0, vec_image_handle_id: 4 },
        ExtractedVecImgInstance { transform: 'y', depth: 0, vec_image_handle_id: 4 },
        ExtractedVecImgInstance { transform: 'z', depth: -3, vec_image_handle_id: 4 },
    ];
    sort_instances(&mut instances);
    let order: Vec<char> = instances.iter().map(|i| i.transform).collect();
    assert_eq!(order, vec!['z', 'x', 'y']);
}

#[test]
fn only_loaded_images_are_drawn_on_the_middle_layer() {
    let query = vec![('p', 2i64, 11u64), ('q', 1, 12), ('r', 0, 11)];
    let mut extracted = extract_vec_img_instances(&query);
    let mut loaded = HashSet::new();
    loaded.insert(11u64);
    let mut commands = Vec::new();
    prepare_vector_images(&mut extracted, &loaded, &mut commands);
    let drawn: Vec<(u64, char)> = commands
        .iter()
        .map(|c| {
            assert_eq!(c.render_layer, RenderLayer::Middle);
            match c.render_type {
                RenderType::Shape(h, t) => (h, t),
                RenderType::Text(..) => panic!("expected a shape"),
            }
        })
        .collect();
    assert_eq!(drawn, vec![(11, 'r'), (11, 'p')]);
}

#[test]
fn world_exchange_round_trip() {
    let mut render_side = vec![1u32];
    let lent = lend_render_world(&mut render_side, ScratchRenderWorld(Vec::new()));
    assert!(render_side.is_empty());
    assert_eq!(lent.0, vec![1]);
    let mut lent = lent;
    lent.0.push(2);
    let scratch = reclaim_render_world(&mut render_side, lent);
    assert_eq!(render_side, vec![1, 2]);
    assert!(scratch.0.is_empty());
}

#[test]
fn svg_loader_extension_and_source_path() {
    let loader = SvgAssetLoader;
    assert_eq!(loader.extensions(), vec!["svg"]);
    assert_eq!(loader.asset_source_path("icons\\ui\\logo.svg"), "assets/icons/ui/logo.svg");
    assert_eq!(loader.asset_source_path("plain.svg"), "assets/plain.svg");
    assert_eq!(loader.asset_source_path(""), "assets/");
}

#[test]
fn asset_events_fold_into_updates() {
    let events = vec![
        AssetEvent::Created(1),
        AssetEvent::Modified(2),
        AssetEvent::Removed(1),
        AssetEvent::Created(3),
        AssetEvent::Removed(4),
        AssetEvent::Created(4),
    ];
    let updates = extract_vec_img_render_assets(&events);
    let mut changed: Vec<u64> = updates.changed.into_iter().collect();
    changed.sort();
    let mut removed: Vec<u64> = updates.removed.into_iter().collect();
    removed.sort();
    assert_eq!(changed, vec![2, 3, 4]);
    assert_eq!(removed, vec![1, 4]);
}
