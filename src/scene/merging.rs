//! Appending one scene to another, with every reference shifted.
use vstd::prelude::*;
use crate::animation::{Animation, Channel};
use super::{GameNode, GameNodeId, GameNodeVisual, Material, Scene, SceneView, Skin, into_reversed};

verus! {

/// `id` moved `offset` slots up, keeping its generation.
pub open spec fn shifted_id(id: GameNodeId, offset: nat) -> GameNodeId {
    GameNodeId((id.0 + offset) as u32, id.1)
}

/// The index offsets that merging one scene into another applies.
pub struct MergeOffsets {
    pub node: nat,
    pub skin: nat,
    pub mesh: nat,
    pub material: nat,
}

/// `m` with its bound material index moved by the material offset.
pub open spec fn shifted_material(m: Material, off: MergeOffsets) -> Material {
    match m {
        Material::Pbr { binded_material_index, dynamic_pbr_params } => Material::Pbr {
            binded_material_index: (binded_material_index + off.material) as usize,
            dynamic_pbr_params,
        },
        _ => m,
    }
}

/// Whether every index of `n` stays in range once shifted.
pub open spec fn node_shift_fits(n: GameNode, off: MergeOffsets) -> bool {
    &&& n.id.0 + off.node <= u32::MAX
    &&& n.parent_id matches Some(p) ==> p.0 + off.node <= u32::MAX
    &&& n.skin_index matches Some(k) ==> k + off.skin <= usize::MAX
    &&& n.visual matches Some(v) ==> {
        &&& v.mesh_index + off.mesh <= usize::MAX
        &&& v.material matches Material::Pbr { binded_material_index, .. }
            ==> binded_material_index + off.material <= usize::MAX
    }
}

/// `n` with every index it holds shifted by the offsets.
pub open spec fn shifted_node(n: GameNode, off: MergeOffsets) -> GameNode {
    GameNode {
        transform: n.transform,
        skin_index: match n.skin_index {
            Some(k) => Some((k + off.skin) as usize),
            None => None,
        },
        visual: match n.visual {
            Some(v) => Some(
                GameNodeVisual {
                    mesh_index: (v.mesh_index + off.mesh) as usize,
                    material: shifted_material(v.material, off),
                    ..v
                },
            ),
            None => None,
        },
        name: n.name,
        parent_id: match n.parent_id {
            Some(p) => Some(shifted_id(p, off.node)),
            None => None,
        },
        id: shifted_id(n.id, off.node),
    }
}

/// A slot of the merged scene made from a slot of the other one.
pub open spec fn shifted_slot(slot: (Option<GameNode>, usize), off: MergeOffsets) -> (
    Option<GameNode>,
    usize,
) {
    (
        match slot.0 {
            Some(n) => Some(shifted_node(n, off)),
            None => None,
        },
        slot.1,
    )
}

/// Whether `s` is `o` with its node handles shifted.
pub open spec fn skin_shifted(s: Skin, o: Skin, off: MergeOffsets) -> bool {
    &&& s.node_id == shifted_id(o.node_id, off.node)
    &&& s.bone_node_ids@.len() == o.bone_node_ids@.len()
    &&& forall|b: int|
        0 <= b < s.bone_node_ids@.len() ==> #[trigger] s.bone_node_ids@[b] == shifted_id(
            o.bone_node_ids@[b],
            off.node,
        )
    &&& s.bone_inverse_bind_matrices == o.bone_inverse_bind_matrices
    &&& s.bone_bounding_box_transforms == o.bone_bounding_box_transforms
}

/// Whether `a` is `o` with its channel targets shifted.
pub open spec fn animation_shifted(a: Animation, o: Animation, off: MergeOffsets) -> bool {
    &&& a.name == o.name
    &&& a.length_seconds == o.length_seconds
    &&& a.speed == o.speed
    &&& a.state == o.state
    &&& a.channels@.len() == o.channels@.len()
    &&& forall|c: int|
        0 <= c < a.channels@.len() ==> #[trigger] a.channels@[c] == (Channel {
            node_id: shifted_id(o.channels@[c].node_id, off.node),
            ..o.channels@[c]
        })
}

/// Whether every handle and index of `o` stays in range once shifted.
pub open spec fn merge_fits(o: SceneView, off: MergeOffsets) -> bool {
    &&& forall|i: int|
        0 <= i < o.slots.len() ==> ((#[trigger] o.slots[i]).0 matches Some(n) ==> node_shift_fits(
            n,
            off,
        ))
    &&& forall|k: int|
        0 <= k < o.skins.len() ==> {
            &&& (#[trigger] o.skins[k]).node_id.0 + off.node <= u32::MAX
            &&& forall|b: int|
                0 <= b < o.skins[k].bone_node_ids@.len() ==> (
                #[trigger] o.skins[k].bone_node_ids@[b]).0 + off.node <= u32::MAX
        }
    &&& forall|a: int, c: int|
        0 <= a < o.animations.len() && 0 <= c < o.animations[a].channels@.len() ==> (
        #[trigger] o.animations[a].channels@[c]).node_id.0 + off.node <= u32::MAX
}

/// The offsets of merging `o` into `s` with the given mesh and material
/// offsets: nodes and skins go after those of `s`.
pub open spec fn merge_offsets(s: SceneView, mesh: nat, material: nat) -> MergeOffsets {
    MergeOffsets { node: s.slots.len(), skin: s.skins.len(), mesh, material }
}

/// The slots after merging `o` into `s`: those of `s`, then those of `o`
/// with their indices shifted.
pub open spec fn merged_slots(s: SceneView, o: SceneView, off: MergeOffsets) -> Seq<
    (Option<GameNode>, usize),
> {
    s.slots + o.slots.map_values(|slot: (Option<GameNode>, usize)| shifted_slot(slot, off))
}

/// The offsets as plain integers.
pub open spec fn offsets_of(node: usize, skin: usize, mesh: usize, material: usize) -> MergeOffsets {
    MergeOffsets { node: node as nat, skin: skin as nat, mesh: mesh as nat, material: material as nat }
}

fn shift_id(id: GameNodeId, node_offset: usize) -> (r: GameNodeId)
    requires
        id.0 + node_offset <= u32::MAX,
    ensures
        r == shifted_id(id, node_offset as nat),
{
    GameNodeId(id.0 + node_offset as u32, id.1)
}

fn shift_node(n: GameNode, node: usize, skin: usize, mesh: usize, material: usize) -> (r: GameNode)
    requires
        node_shift_fits(n, offsets_of(node, skin, mesh, material)),
    ensures
        r == shifted_node(n, offsets_of(node, skin, mesh, material)),
{
    let mut n = n;
    n.skin_index = match n.skin_index {
        Some(k) => Some(k + skin),
        None => None,
    };
    n.visual = match n.visual {
        Some(v) => {
            let material = match v.material {
                Material::Pbr { binded_material_index, dynamic_pbr_params } => Material::Pbr {
                    binded_material_index: binded_material_index + material,
                    dynamic_pbr_params,
                },
                other => other,
            };
            Some(GameNodeVisual { mesh_index: v.mesh_index + mesh, material, ..v })
        },
        None => None,
    };
    n.parent_id = match n.parent_id {
        Some(p) => Some(shift_id(p, node)),
        None => None,
    };
    n.id = shift_id(n.id, node);
    n
}

fn shift_skin(skin: Skin, node: usize) -> (r: Skin)
    requires
        skin.node_id.0 + node <= u32::MAX,
        forall|b: int|
            0 <= b < skin.bone_node_ids@.len() ==> (#[trigger] skin.bone_node_ids@[b]).0 + node
                <= u32::MAX,
    ensures
        skin_shifted(r, skin, offsets_of(node, 0, 0, 0)),
{
    let mut bone_node_ids: Vec<GameNodeId> = Vec::new();
    let mut b: usize = 0;
    while b < skin.bone_node_ids.len()
        invariant
            b <= skin.bone_node_ids@.len(),
            forall|j: int|
                0 <= j < skin.bone_node_ids@.len() ==> (#[trigger] skin.bone_node_ids@[j]).0 + node
                    <= u32::MAX,
            bone_node_ids@.len() == b,
            forall|j: int|
                0 <= j < b ==> #[trigger] bone_node_ids@[j] == shifted_id(
                    skin.bone_node_ids@[j],
                    node as nat,
                ),
        decreases skin.bone_node_ids@.len() - b,
    {
        bone_node_ids.push(shift_id(skin.bone_node_ids[b], node));
        b = b + 1;
    }
    Skin {
        node_id: shift_id(skin.node_id, node),
        bone_node_ids,
        bone_inverse_bind_matrices: skin.bone_inverse_bind_matrices,
        bone_bounding_box_transforms: skin.bone_bounding_box_transforms,
    }
}

fn shift_animation(animation: Animation, node: usize) -> (r: Animation)
    requires
        forall|c: int|
            0 <= c < animation.channels@.len() ==> (#[trigger] animation.channels@[c]).node_id.0
                + node <= u32::MAX,
    ensures
        animation_shifted(r, animation, offsets_of(node, 0, 0, 0)),
{
    let ghost original = animation.channels@;
    let n_channels = animation.channels.len();
    let mut rest = into_reversed(animation.channels);
    let mut channels: Vec<Channel> = Vec::new();
    let mut c: usize = 0;
    while c < n_channels
        invariant
            n_channels == original.len(),
            original == animation.channels@,
            forall|j: int| 0 <= j < original.len() ==> (#[trigger] original[j]).node_id.0 + node <= u32::MAX,
            c <= n_channels,
            rest@.len() == n_channels - c,
            forall|j: int| 0 <= j < rest@.len() ==> #[trigger] rest@[j] == original[n_channels - 1 - j],
            channels@.len() == c,
            forall|j: int|
                0 <= j < c ==> #[trigger] channels@[j] == (Channel {
                    node_id: shifted_id(original[j].node_id, node as nat),
                    ..original[j]
                }),
        decreases n_channels - c,
    {
        let mut channel = rest.pop().unwrap();
        assert(channel == original[c as int]);
        channel.node_id = shift_id(channel.node_id, node);
        channels.push(channel);
        c = c + 1;
    }
    Animation {
        name: animation.name,
        length_seconds: animation.length_seconds,
        speed: animation.speed,
        channels,
        state: animation.state,
    }
}

impl Scene {
    /// Appends `other_scene`'s nodes, skins and animations to this scene.
    /// Every handle they hold moves up by this scene's slot count (keeping
    /// its generation), skin indices by its skin count, and mesh and bound
    /// material indices by the given offsets. The skeleton parent maps are
    /// rebuilt. Freed slots of `other_scene` stay empty.
    pub fn merge_scene(
        &mut self,
        other_scene: Scene,
        mesh_index_offset: usize,
        material_index_offset: usize,
    )
        requires
            old(self).wf(),
            old(self)@.slots.len() + other_scene@.slots.len() <= u32::MAX,
            merge_fits(
                other_scene@,
                merge_offsets(old(self)@, mesh_index_offset as nat, material_index_offset as nat),
            ),
        ensures
            final(self).wf(),
            final(self)@.slots == merged_slots(
                old(self)@,
                other_scene@,
                merge_offsets(old(self)@, mesh_index_offset as nat, material_index_offset as nat),
            ),
            final(self)@.free_slots == old(self)@.free_slots,
            final(self)@.skins.len() == old(self)@.skins.len() + other_scene@.skins.len(),
            forall|k: int|
                0 <= k < old(self)@.skins.len() ==> #[trigger] final(self)@.skins[k]
                    == old(self)@.skins[k],
            forall|k: int|
                0 <= k < other_scene@.skins.len() ==> skin_shifted(
                    #[trigger] final(self)@.skins[old(self)@.skins.len() + k],
                    other_scene@.skins[k],
                    merge_offsets(old(self)@, mesh_index_offset as nat, material_index_offset as nat),
                ),
            final(self)@.animations.len() == old(self)@.animations.len()
                + other_scene@.animations.len(),
            forall|a: int|
                0 <= a < old(self)@.animations.len() ==> #[trigger] final(self)@.animations[a]
                    == old(self)@.animations[a],
            forall|a: int|
                0 <= a < other_scene@.animations.len() ==> animation_shifted(
                    #[trigger] final(self)@.animations[old(self)@.animations.len() + a],
                    other_scene@.animations[a],
                    merge_offsets(old(self)@, mesh_index_offset as nat, material_index_offset as nat),
                ),
            final(self).skeleton_parent_maps() == final(self)@.all_skeleton_maps(),
    {
        let node_offset = self.nodes.len();
        let skin_offset = self.skins.len();
        let ghost off = offsets_of(node_offset, skin_offset, mesh_index_offset, material_index_offset);
        let ghost o = other_scene@;
        let ghost s0 = self@;
        let Scene { nodes, skins, animations, .. } = other_scene;

        let n_nodes = nodes.len();
        let mut rest = into_reversed(nodes);
        let mut i: usize = 0;
        while i < n_nodes
            invariant
                n_nodes == o.slots.len(),
                s0.slots.len() + n_nodes <= u32::MAX,
                node_offset == s0.slots.len(),
                off == offsets_of(node_offset, skin_offset, mesh_index_offset, material_index_offset),
                merge_fits(o, off),
                i <= n_nodes,
                rest@.len() == n_nodes - i,
                forall|j: int| 0 <= j < rest@.len() ==> #[trigger] rest@[j] == o.slots[n_nodes - 1 - j],
                self@.slots =~= s0.slots + o.slots.take(i as int).map_values(
                    |slot: (Option<GameNode>, usize)| shifted_slot(slot, off),
                ),
                self@.free_slots == s0.free_slots,
                self@.skins == s0.skins,
                self@.animations == s0.animations,
                self@.wf(),
                s0.wf(),
            decreases n_nodes - i,
        {
            let (slot_node, generation) = rest.pop().unwrap();
            assert((slot_node, generation) == o.slots[i as int]);
            let shifted = match slot_node {
                Some(n) => Some(
                    shift_node(n, node_offset, skin_offset, mesh_index_offset, material_index_offset),
                ),
                None => None,
            };
            self.nodes.push((shifted, generation));
            assert(o.slots.take(i + 1) =~= o.slots.take(i as int).push(o.slots[i as int]));
            assert forall|k: int| 0 <= k < self@.free_slots.len() implies
                (#[trigger] self@.free_slots[k]) < self@.slots.len()
                && self@.slots[self@.free_slots[k] as int].0 is None by {
                assert(s0.free_slots[k] < s0.slots.len());
            }
            i = i + 1;
        }
        assert(o.slots.take(n_nodes as int) =~= o.slots);

        let n_skins = skins.len();
        let mut rest_skins = into_reversed(skins);
        let mut k: usize = 0;
        while k < n_skins
            invariant
                n_skins == o.skins.len(),
                node_offset == s0.slots.len(),
                off == offsets_of(node_offset, skin_offset, mesh_index_offset, material_index_offset),
                merge_fits(o, off),
                k <= n_skins,
                rest_skins@.len() == n_skins - k,
                forall|j: int|
                    0 <= j < rest_skins@.len() ==> #[trigger] rest_skins@[j] == o.skins[n_skins - 1 - j],
                self@.slots == merged_slots(s0, o, merge_offsets(s0, mesh_index_offset as nat, material_index_offset as nat)),
                self@.free_slots == s0.free_slots,
                self@.animations == s0.animations,
                self@.wf(),
                self@.skins.len() == s0.skins.len() + k,
                forall|j: int| 0 <= j < s0.skins.len() ==> #[trigger] self@.skins[j] == s0.skins[j],
                forall|j: int|
                    0 <= j < k ==> skin_shifted(#[trigger] self@.skins[s0.skins.len() + j], o.skins[j], off),
            decreases n_skins - k,
        {
            let skin = rest_skins.pop().unwrap();
            assert(skin == o.skins[k as int]);
            let shifted = shift_skin(skin, node_offset);
            self.skins.push(shifted);
            k = k + 1;
        }

        let n_anims = animations.len();
        let mut rest_anims = into_reversed(animations);
        let mut a: usize = 0;
        while a < n_anims
            invariant
                n_anims == o.animations.len(),
                node_offset == s0.slots.len(),
                off == offsets_of(node_offset, skin_offset, mesh_index_offset, material_index_offset),
                merge_fits(o, off),
                a <= n_anims,
                rest_anims@.len() == n_anims - a,
                forall|j: int|
                    0 <= j < rest_anims@.len() ==> #[trigger] rest_anims@[j] == o.animations[n_anims - 1 - j],
                self@.slots == merged_slots(s0, o, merge_offsets(s0, mesh_index_offset as nat, material_index_offset as nat)),
                self@.free_slots == s0.free_slots,
                self@.wf(),
                self@.skins.len() == s0.skins.len() + o.skins.len(),
                forall|j: int| 0 <= j < s0.skins.len() ==> #[trigger] self@.skins[j] == s0.skins[j],
                forall|j: int|
                    0 <= j < o.skins.len() ==> skin_shifted(#[trigger] self@.skins[s0.skins.len() + j], o.skins[j], off),
                self@.animations.len() == s0.animations.len() + a,
                forall|j: int| 0 <= j < s0.animations.len() ==> #[trigger] self@.animations[j] == s0.animations[j],
                forall|j: int|
                    0 <= j < a ==> animation_shifted(#[trigger] self@.animations[s0.animations.len() + j], o.animations[j], off),
            decreases n_anims - a,
        {
            let animation = rest_anims.pop().unwrap();
            assert(animation == o.animations[a as int]);
            let shifted = shift_animation(animation, node_offset);
            self.animations.push(shifted);
            a = a + 1;
        }
        self.rebuild_skeleton_parent_index_maps();
    }
}

/// Merging a scene into another leaves the receiving scene's nodes where
/// they were: every handle that designated a node designates the same node,
/// transform included. The appended half holds the other scene's slots with
/// their indices shifted.
pub proof fn lemma_merge_keeps_existing_nodes(
    s: SceneView,
    o: SceneView,
    mesh: nat,
    material: nat,
    id: GameNodeId,
)
    requires
        s.is_live(id),
    ensures
        (SceneView { slots: merged_slots(s, o, merge_offsets(s, mesh, material)), ..s }).node(id)
            == s.node(id),
        forall|i: int|
            0 <= i < o.slots.len() ==> #[trigger] merged_slots(
                s,
                o,
                merge_offsets(s, mesh, material),
            )[s.slots.len() + i] == shifted_slot(o.slots[i], merge_offsets(s, mesh, material)),
{
}

} // verus!
