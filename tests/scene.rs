use ikari::animation::{
    Animation, AnimationState, Channel, ChannelWrite, Interpolation, LoopType, NodeProperty, Property,
};
use ikari::scene::{
    GameNodeDesc, GameNodeDescBuilder, GameNodeId, GameNodeVisual, IndexedAnimation, IndexedChannel,
    IndexedGameNodeDesc, IndexedSkin, Material, Scene, SceneError, Sphere,
};
use ikari::transform::Transform;

fn v3(x: f32, y: f32, z: f32) -> [u32; 3] {
    [x.to_bits(), y.to_bits(), z.to_bits()]
}

fn at(position: [u32; 3]) -> Transform {
    Transform::from_position(position)
}

fn indexed_node(transform: Transform, parent_index: Option<usize>) -> IndexedGameNodeDesc {
    IndexedGameNodeDesc { transform, skin_index: None, visual: None, name: None, parent_index }
}

fn assert_node_exists(scene: &Scene, node_id: GameNodeId) {
    assert_eq!(scene.get_node(node_id).map(|node| node.id()), Some(node_id));
}

fn assert_node_doesnt_exist(scene: &Scene, node_id: GameNodeId) {
    assert_eq!(scene.get_node(node_id).map(|node| node.id()), None);
}

#[test]
fn removing_nodes_invalidates_ids() {
    let mut scene = Scene::new(vec![], vec![], vec![]).unwrap();

    let node_1 = scene.add_node(GameNodeDesc::default());
    let node_1_id = node_1.id();

    let node_2 = scene.add_node(GameNodeDesc::default());
    let node_2_id = node_2.id();

    assert_node_exists(&scene, node_1_id);
    assert_node_exists(&scene, node_2_id);

    scene.remove_node(node_1_id);

    assert_node_doesnt_exist(&scene, node_1_id);
    assert_node_exists(&scene, node_2_id);

    let node_3 = scene.add_node(GameNodeDesc::default());
    let node_3_id = node_3.id();

    assert_node_doesnt_exist(&scene, node_1_id);
    assert_node_exists(&scene, node_2_id);
    assert_node_exists(&scene, node_3_id);
    assert_eq!(scene.slot_count(), 2);

    scene.remove_node(node_2_id);

    assert_node_doesnt_exist(&scene, node_1_id);
    assert_node_doesnt_exist(&scene, node_2_id);
    assert_node_exists(&scene, node_3_id);
}

#[test]
fn freed_slot_is_reused_one_generation_up() {
    let mut scene = Scene::new(vec![], vec![], vec![]).unwrap();
    let a = scene.add_node(GameNodeDesc::default()).id();
    let b = scene.add_node(GameNodeDesc::default()).id();
    assert_eq!(a._raw(), (0, 0));
    assert_eq!(b._raw(), (1, 0));
    scene.remove_node(a);
    let c = scene.add_node(GameNodeDesc::default()).id();
    assert_eq!(c._raw(), (0, 1));
    assert!(scene.get_node(a).is_none());
    assert!(scene.get_node(c).is_some());
    scene.remove_node(c);
    let d = scene.add_node(GameNodeDesc::default()).id();
    assert_eq!(d._raw(), (0, 2));
    assert!(scene.get_node(a).is_none());
    assert!(scene.get_node(c).is_none());
    assert_eq!(scene.node_count(), 2);
}

#[test]
fn stale_and_out_of_range_ids_are_harmless() {
    let mut scene = Scene::new(vec![], vec![], vec![]).unwrap();
    let a = scene.add_node(GameNodeDesc::default()).id();
    assert!(scene.get_node(GameNodeId(7, 0)).is_none());
    assert!(scene.get_node(GameNodeId(0, 3)).is_none());
    scene.remove_node(a);
    scene.remove_node(a);
    assert_eq!(scene.node_count(), 0);
    assert!(scene.get_node_mut(a).is_none());
    let b = scene.add_node(GameNodeDesc::default()).id();
    assert_eq!(b._raw(), (0, 1));
    let next = scene.add_node(GameNodeDesc::default()).id();
    assert_eq!(next._raw(), (1, 0));
}

#[test]
fn global_transform_composes_three_levels() {
    let nodes = vec![
        indexed_node(at(v3(0.0, 0.0, 0.0)), None),
        indexed_node(at(v3(1.0, 0.0, 0.0)), Some(0)),
        indexed_node(at(v3(0.0, 1.0, 0.0)), Some(1)),
    ];
    let scene = Scene::new(nodes, vec![], vec![]).unwrap();
    let c = GameNodeId(2, 0);
    assert!(scene.ancestry_within_cap(c));
    let global = scene.get_global_transform_for_node(c);
    assert_eq!(global.position, v3(1.0, 1.0, 0.0));
    assert_eq!(global.scale, v3(1.0, 1.0, 1.0));

    let root = scene.get_node(GameNodeId(0, 0)).unwrap().transform;
    let parent = scene.get_node(GameNodeId(1, 0)).unwrap().transform;
    let child = scene.get_node(c).unwrap().transform;
    let folded = root.mul(&parent).mul(&child);
    assert_eq!(folded.position, global.position);
    assert_eq!(folded.rotation, global.rotation);
    assert_eq!(folded.scale, global.scale);
}

#[test]
fn composition_applies_parent_scale_to_child_position() {
    let mut parent = Transform::identity();
    parent.set_scale(v3(2.0, 2.0, 2.0));
    parent.set_position(v3(0.0, 0.0, 5.0));
    let child = at(v3(1.0, 0.0, 0.0));
    let composed = parent.mul(&child);
    assert_eq!(composed.position, v3(2.0, 0.0, 5.0));
    assert_eq!(composed.scale, v3(2.0, 2.0, 2.0));
}

#[test]
fn orphans_stop_their_ancestry_at_the_removed_parent() {
    let nodes = vec![
        indexed_node(at(v3(5.0, 0.0, 0.0)), None),
        indexed_node(at(v3(1.0, 0.0, 0.0)), Some(0)),
    ];
    let mut scene = Scene::new(nodes, vec![], vec![]).unwrap();
    scene.remove_node(GameNodeId(0, 0));
    let global = scene.get_global_transform_for_node(GameNodeId(1, 0));
    assert_eq!(global.position, v3(1.0, 0.0, 0.0));
    let gone = scene.get_global_transform_for_node(GameNodeId(0, 0));
    assert_eq!(gone.position, Transform::identity().position);
}

#[test]
fn cyclic_hierarchy_exceeds_the_cap() {
    let nodes = vec![indexed_node(Transform::identity(), Some(1)), indexed_node(Transform::identity(), Some(0))];
    let scene = Scene::new(nodes, vec![], vec![]).unwrap();
    assert!(!scene.ancestry_within_cap(GameNodeId(0, 0)));
    assert!(!scene.hierarchy_within_cap());
}

#[test]
fn recompute_fills_the_transform_cache() {
    let nodes = vec![
        indexed_node(at(v3(1.0, 2.0, 3.0)), None),
        indexed_node(at(v3(1.0, 0.0, 0.0)), Some(0)),
    ];
    let mut scene = Scene::new(nodes, vec![], vec![]).unwrap();
    scene.remove_node(GameNodeId(0, 0));
    scene.add_node(GameNodeDescBuilder::new().transform(at(v3(0.0, 0.0, 4.0))).build());
    assert!(scene.hierarchy_within_cap());
    scene.recompute_global_node_transforms();
    assert_eq!(scene.get_global_transform_for_node_opt(GameNodeId(0, 1)).position, v3(0.0, 0.0, 4.0));
    assert_eq!(scene.get_global_transform_for_node_opt(GameNodeId(1, 0)).position, v3(1.0, 0.0, 0.0));
    let spheres = vec![
        Sphere { center: v3(0.0, 0.0, 0.0), radius: 1.0f32.to_bits() },
        Sphere { center: v3(1.0, 0.0, 0.0), radius: 2.0f32.to_bits() },
    ];
    scene.set_global_node_bounding_spheres(spheres);
    assert_eq!(scene.get_node_bounding_sphere_opt(GameNodeId(1, 0)).radius, 2.0f32.to_bits());
}

#[test]
fn new_scene_rejects_bad_descriptions() {
    let big = vec![indexed_node(Transform::identity(), Some(u32::MAX as usize + 1))];
    assert_eq!(Scene::new(big, vec![], vec![]).err(), Some(SceneError::IndexTooLarge));

    let skin = IndexedSkin {
        bone_node_indices: vec![0, 5],
        bone_inverse_bind_matrices: vec![],
        bone_bounding_box_transforms: vec![],
    };
    let nodes = vec![IndexedGameNodeDesc { skin_index: Some(0), ..indexed_node(Transform::identity(), None) }];
    assert_eq!(
        Scene::new(nodes, vec![skin], vec![]).err(),
        Some(SceneError::BoneOutOfRange { skin_index: 0 })
    );

    let skin = IndexedSkin {
        bone_node_indices: vec![0],
        bone_inverse_bind_matrices: vec![],
        bone_bounding_box_transforms: vec![],
    };
    let nodes = vec![indexed_node(Transform::identity(), None)];
    assert_eq!(
        Scene::new(nodes, vec![skin], vec![]).err(),
        Some(SceneError::SkinWithoutNode { skin_index: 0 })
    );

    let channel = IndexedChannel {
        node_index: u32::MAX as usize + 1,
        property: Property::Translation,
        interpolation_type: Interpolation::Step,
        keyframe_timings: vec![0],
        keyframe_values_u8: vec![0; 12],
    };
    let animation = IndexedAnimation { name: None, length_seconds: 0, channels: vec![channel] };
    assert_eq!(Scene::new(vec![], vec![], vec![animation]).err(), Some(SceneError::IndexTooLarge));
}

fn skinned_scene() -> Scene {
    // 0: skin carrier; 1: root bone; 2: child bone; 3: grandchild bone
    let nodes = vec![
        IndexedGameNodeDesc { skin_index: Some(0), ..indexed_node(Transform::identity(), None) },
        indexed_node(Transform::identity(), Some(0)),
        indexed_node(Transform::identity(), Some(1)),
        indexed_node(Transform::identity(), Some(2)),
    ];
    let skin = IndexedSkin {
        bone_node_indices: vec![1, 2, 3],
        bone_inverse_bind_matrices: vec![[0; 16]; 3],
        bone_bounding_box_transforms: vec![Transform::identity(); 3],
    };
    let channel = IndexedChannel {
        node_index: 3,
        property: Property::Translation,
        interpolation_type: Interpolation::Step,
        keyframe_timings: vec![0],
        keyframe_values_u8: vec![0; 12],
    };
    let animation = IndexedAnimation {
        name: Some(String::from("wave")),
        length_seconds: 1.0f32.to_bits(),
        channels: vec![channel],
    };
    Scene::new(nodes, vec![skin], vec![animation]).unwrap()
}

#[test]
fn new_scene_links_skins_and_animations() {
    let scene = skinned_scene();
    assert_eq!(scene.node_count(), 4);
    assert_eq!(scene.skins[0].node_id, GameNodeId(0, 0));
    assert_eq!(scene.skins[0].bone_node_ids, vec![GameNodeId(1, 0), GameNodeId(2, 0), GameNodeId(3, 0)]);
    assert_eq!(scene.animations[0].channels[0].node_id, GameNodeId(3, 0));
    assert_eq!(scene.animations[0].speed, 1.0f32.to_bits());
    assert!(!scene.animations[0].state.is_playing);
    assert_eq!(scene.animations[0].state.loop_type, LoopType::Once);
    assert_eq!(scene.get_node(GameNodeId(2, 0)).unwrap().parent_id, Some(GameNodeId(1, 0)));
}

#[test]
fn skeleton_ancestry_follows_the_bone_parents() {
    let scene = skinned_scene();
    let list = scene.get_skeleton_node_ancestry_list(GameNodeId(3, 0), GameNodeId(0, 0));
    assert_eq!(list, vec![GameNodeId(3, 0), GameNodeId(2, 0), GameNodeId(1, 0), GameNodeId(0, 0)]);
    let none = scene.get_skeleton_node_ancestry_list(GameNodeId(3, 0), GameNodeId(2, 0));
    assert!(none.is_empty());
}

#[test]
fn staged_writes_apply_in_order_and_skip_stale_targets() {
    let mut scene = Scene::new(vec![], vec![], vec![]).unwrap();
    let a = scene.add_node(GameNodeDesc::default()).id();
    let b = scene.add_node(GameNodeDesc::default()).id();
    scene.remove_node(b);
    let writes = vec![
        ChannelWrite { node_id: a, value: NodeProperty::Translation(v3(1.0, 2.0, 3.0)) },
        ChannelWrite { node_id: b, value: NodeProperty::Translation(v3(9.0, 9.0, 9.0)) },
        ChannelWrite { node_id: a, value: NodeProperty::Scale(v3(2.0, 2.0, 2.0)) },
        ChannelWrite { node_id: a, value: NodeProperty::Translation(v3(4.0, 5.0, 6.0)) },
    ];
    scene.apply_channel_writes(&writes);
    let node = scene.get_node(a).unwrap();
    assert_eq!(node.transform.position, v3(4.0, 5.0, 6.0));
    assert_eq!(node.transform.scale, v3(2.0, 2.0, 2.0));
    assert_eq!(node.transform.rotation, Transform::identity().rotation);
    assert!(scene.get_node(b).is_none());
}

#[test]
fn merge_keeps_existing_nodes_and_shifts_the_other() {
    let make = || {
        let nodes = vec![
            IndexedGameNodeDesc {
                visual: Some(GameNodeVisual::make_pbr(1, 2)),
                ..indexed_node(at(v3(1.0, 0.0, 0.0)), None)
            },
            indexed_node(at(v3(0.0, 1.0, 0.0)), Some(0)),
        ];
        Scene::new(nodes, vec![], vec![]).unwrap()
    };
    let mut scene = make();
    let before: Vec<[u32; 3]> = scene.nodes().iter().map(|n| n.transform.position).collect();
    scene.merge_scene(make(), 0, 0);
    assert_eq!(scene.slot_count(), 4);
    for (i, position) in before.iter().enumerate() {
        let id = GameNodeId(i as u32, 0);
        let node = scene.get_node(id).unwrap();
        assert_eq!(node.id(), id);
        assert_eq!(node.transform.position, *position);
    }
    assert_eq!(scene.get_node(GameNodeId(1, 0)).unwrap().parent_id, Some(GameNodeId(0, 0)));
    assert_eq!(scene.get_node(GameNodeId(3, 0)).unwrap().parent_id, Some(GameNodeId(2, 0)));
    assert_eq!(scene.get_node(GameNodeId(2, 0)).unwrap().transform.position, v3(1.0, 0.0, 0.0));

    let mut shifted = make();
    shifted.merge_scene(make(), 10, 20);
    let visual = shifted.get_node(GameNodeId(2, 0)).unwrap().visual.unwrap();
    assert_eq!(visual.mesh_index, 11);
    match visual.material {
        Material::Pbr { binded_material_index, .. } => assert_eq!(binded_material_index, 22),
        _ => panic!("material kind changed"),
    }
    let kept = shifted.get_node(GameNodeId(0, 0)).unwrap().visual.unwrap();
    assert_eq!(kept.mesh_index, 1);
}

#[test]
fn merge_shifts_skins_and_channel_targets() {
    let mut scene = skinned_scene();
    scene.merge_scene(skinned_scene(), 0, 0);
    assert_eq!(scene.skins.len(), 2);
    assert_eq!(scene.skins[1].node_id, GameNodeId(4, 0));
    assert_eq!(scene.skins[1].bone_node_ids, vec![GameNodeId(5, 0), GameNodeId(6, 0), GameNodeId(7, 0)]);
    assert_eq!(scene.animations[1].channels[0].node_id, GameNodeId(7, 0));
    assert_eq!(scene.get_node(GameNodeId(4, 0)).unwrap().skin_index, Some(1));
    let list = scene.get_skeleton_node_ancestry_list(GameNodeId(7, 0), GameNodeId(4, 0));
    assert_eq!(list, vec![GameNodeId(7, 0), GameNodeId(6, 0), GameNodeId(5, 0), GameNodeId(4, 0)]);
}

#[test]
fn get_node_mut_edits_in_place() {
    let mut scene = Scene::new(vec![], vec![], vec![]).unwrap();
    let a = scene.add_node(GameNodeDesc::default()).id();
    scene.get_node_mut(a).unwrap().name = Some(String::from("lamp"));
    assert_eq!(scene.get_node(a).unwrap().name.as_deref(), Some("lamp"));
    assert_eq!(scene.get_node_unchecked(a).name.as_deref(), Some("lamp"));
    assert_eq!(scene.nodes().len(), 1);
}

#[test]
fn builder_and_defaults() {
    let desc = GameNodeDescBuilder::default()
        .name(Some(String::from("n")))
        .skin_index(Some(3))
        .parent_id(Some(GameNodeId(4, 1)))
        .visual(Some(GameNodeVisual::from_mesh_mat(7, Material::default())))
        .build();
    assert_eq!(desc.name.as_deref(), Some("n"));
    assert_eq!(desc.skin_index, Some(3));
    assert_eq!(desc.parent_id, Some(GameNodeId(4, 1)));
    let visual = desc.visual.unwrap();
    assert_eq!(visual.mesh_index, 7);
    assert!(visual.cullable && !visual.wireframe);
    match visual.material {
        Material::Unlit { color } => assert_eq!(color, v3(1.0, 1.0, 1.0)),
        _ => panic!("default material is unlit"),
    }
    assert_eq!(desc.transform.scale, v3(1.0, 1.0, 1.0));
    let state = AnimationState::default();
    assert_eq!(state.current_time_seconds, 0.0f32.to_bits());
    let _ = Animation {
        name: None,
        length_seconds: 0,
        speed: 0,
        channels: Vec::<Channel>::new(),
        state,
    };
}

#[test]
fn skin_carrier_of_a_bone() {
    let scene = skinned_scene();
    assert_eq!(scene._get_skeleton_skin_node_id(GameNodeId(2, 0)), Some(GameNodeId(0, 0)));
    assert_eq!(scene._get_skeleton_skin_node_id(GameNodeId(0, 0)), None);
    assert_eq!(scene._get_node_by_index(1).map(|n| n.id()), Some(GameNodeId(1, 0)));
}

#[test]
fn default_scene_is_empty() {
    let mut scene = Scene::default();
    assert_eq!(scene.slot_count(), 0);
    assert_eq!(scene.node_count(), 0);
    assert!(scene.skins.is_empty() && scene.animations.is_empty());
    let id = scene.add_node(GameNodeDesc::default()).id();
    assert_eq!(id, GameNodeId(0, 0));
}
