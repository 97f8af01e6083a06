//! The generational node arena: stable, generation-checked node handles,
//! parent links, ancestry walks and global-transform composition.
use vstd::prelude::*;
use crate::transform::{Transform, composed, identity_spec};
use crate::animation::{Animation, ChannelWrite, NodeProperty};
use std::collections::HashMap;

mod builder;
mod loading;
mod merging;

pub use builder::GameNodeDescBuilder;
pub use loading::{
    IndexedAnimation, IndexedChannel, IndexedGameNodeDesc, IndexedSkin, SceneError, animation_made_from,
    channel_from_indexed, first_node_with_skin, first_skin_error, has_oversized_index, initial_id,
    node_from_indexed, scene_error, skin_error, skin_made_from,
};
pub use merging::{
    MergeOffsets, animation_shifted, lemma_merge_keeps_existing_nodes, merge_fits, merge_offsets,
    merged_slots, node_shift_fits, offsets_of, shifted_id, shifted_material, shifted_node, shifted_slot,
    skin_shifted,
};

verus! {

/// Hard cap on the number of nodes in one ancestry chain (the node itself
/// included). A deeper chain is a content defect.
pub const MAX_NODE_HIERARCHY_LEVELS: usize = 32;

/// Handle of a node: (slot index in the arena, generation of that slot).
#[derive(Clone, Copy, Debug, PartialEq, Eq, Structural, Hash)]
pub struct GameNodeId(pub u32, pub usize);

impl GameNodeId {
    /// The slot index and the generation.
    pub fn _raw(&self) -> (r: (u32, usize))
        ensures
            r == (self.0, self.1),
    {
        (self.0, self.1)
    }
}

/// Per-material overrides of the physically based parameters, each an
/// IEEE-754 bit pattern.
#[derive(Clone, Copy, Debug)]
pub struct DynamicPbrParams {
    pub base_color_factor: [u32; 4],
    pub emissive_factor: [u32; 3],
    pub metallic_factor: u32,
    pub roughness_factor: u32,
    pub normal_scale: u32,
    pub occlusion_strength: u32,
    pub alpha_cutoff: u32,
}

/// How a node's mesh is shaded.
#[derive(Clone, Copy, Debug)]
pub enum Material {
    Pbr {
        binded_material_index: usize,
        /// if set, takes precedence over the material's own params
        dynamic_pbr_params: Option<DynamicPbrParams>,
    },
    Unlit { color: [u32; 3] },
    Transparent { color: [u32; 4], premultiplied_alpha: bool },
}

/// The default material: unlit white.
pub open spec fn default_material_spec() -> Material {
    Material::Unlit { color: [crate::transform::ONE_BITS, crate::transform::ONE_BITS, crate::transform::ONE_BITS] }
}

impl Default for Material {
    fn default() -> (r: Material)
        ensures
            r == default_material_spec(),
    {
        Material::Unlit { color: [crate::transform::ONE_BITS, crate::transform::ONE_BITS, crate::transform::ONE_BITS] }
    }
}

/// A mesh and material drawn at a node.
#[derive(Clone, Copy, Debug)]
pub struct GameNodeVisual {
    pub material: Material,
    pub mesh_index: usize,
    pub wireframe: bool,
    pub cullable: bool,
}

impl GameNodeVisual {
    /// A cullable, solid visual with a bound PBR material.
    pub fn make_pbr(mesh_index: usize, binded_pbr_material_index: usize) -> (r: Self)
        ensures
            r == (GameNodeVisual {
                mesh_index,
                material: Material::Pbr {
                    binded_material_index: binded_pbr_material_index,
                    dynamic_pbr_params: None,
                },
                wireframe: false,
                cullable: true,
            }),
    {
        Self {
            mesh_index,
            material: Material::Pbr {
                binded_material_index: binded_pbr_material_index,
                dynamic_pbr_params: None,
            },
            wireframe: false,
            cullable: true,
        }
    }

    /// A cullable, solid visual with the given material.
    pub fn from_mesh_mat(mesh_index: usize, material: Material) -> (r: Self)
        ensures
            r == (GameNodeVisual { mesh_index, material, wireframe: false, cullable: true }),
    {
        Self { mesh_index, material, wireframe: false, cullable: true }
    }
}

/// What a new node is made of.
#[derive(Clone, Debug)]
pub struct GameNodeDesc {
    pub transform: Transform,
    pub skin_index: Option<usize>,
    pub visual: Option<GameNodeVisual>,
    pub name: Option<String>,
    pub parent_id: Option<GameNodeId>,
}

impl Default for GameNodeDesc {
    fn default() -> (r: GameNodeDesc)
        ensures
            r.transform == identity_spec(),
            r.skin_index is None,
            r.visual is None,
            r.name is None,
            r.parent_id is None,
    {
        GameNodeDesc {
            transform: Transform::identity(),
            skin_index: None,
            visual: None,
            name: None,
            parent_id: None,
        }
    }
}

/// A live node of the arena.
#[derive(Clone, Debug)]
pub struct GameNode {
    pub transform: Transform,
    pub skin_index: Option<usize>,
    pub visual: Option<GameNodeVisual>,
    pub name: Option<String>,
    pub parent_id: Option<GameNodeId>,
    /// The handle that the node was given when it was added.
    pub id: GameNodeId,
}

impl GameNode {
    /// The node as built from `desc` under the handle `id`.
    pub open spec fn made_from(&self, desc: GameNodeDesc, id: GameNodeId) -> bool {
        &&& self.transform == desc.transform
        &&& self.skin_index == desc.skin_index
        &&& self.visual == desc.visual
        &&& self.name == desc.name
        &&& self.parent_id == desc.parent_id
        &&& self.id == id
    }

    pub fn id(&self) -> (r: GameNodeId)
        ensures
            r == self.id,
    {
        self.id
    }
}

/// A bounding sphere: its center and radius as IEEE-754 bit patterns.
#[derive(Clone, Copy, Debug)]
pub struct Sphere {
    pub center: [u32; 3],
    pub radius: u32,
}

/// `t` with one property replaced.
pub open spec fn written(t: Transform, value: NodeProperty) -> Transform {
    match value {
        NodeProperty::Translation(p) => Transform { position: p, ..t },
        NodeProperty::Scale(sc) => Transform { scale: sc, ..t },
        NodeProperty::Rotation(q) => Transform { rotation: q, ..t },
    }
}

/// What the arena holds: a slot per index, `(node, generation)`, and the
/// stack of freed slot indices that new nodes reuse first.
pub struct SceneView {
    pub slots: Seq<(Option<GameNode>, usize)>,
    pub free_slots: Seq<usize>,
    pub skins: Seq<Skin>,
    pub animations: Seq<Animation>,
}

impl SceneView {
    /// The node that `id` designates: its slot exists, holds a node, and
    /// has the generation of `id`.
    pub open spec fn node(self, id: GameNodeId) -> Option<GameNode> {
        if (id.0 as int) < self.slots.len() && self.slots[id.0 as int].1 == id.1 {
            self.slots[id.0 as int].0
        } else {
            None
        }
    }

    /// Whether `id` designates a live node.
    pub open spec fn is_live(self, id: GameNodeId) -> bool {
        self.node(id) is Some
    }

    /// The handle that the next `add_node` returns.
    pub open spec fn next_id(self) -> GameNodeId {
        if self.free_slots.len() > 0 {
            let i = self.free_slots.last();
            GameNodeId(i as u32, (self.slots[i as int].1 + 1) as usize)
        } else {
            GameNodeId(self.slots.len() as u32, 0)
        }
    }

    /// Whether `add_node` can run without an index or generation overflow.
    pub open spec fn can_add(self) -> bool {
        if self.free_slots.len() > 0 {
            self.slots[self.free_slots.last() as int].1 < usize::MAX
        } else {
            self.slots.len() < u32::MAX
        }
    }

    /// The live nodes among the first `n` slots, in slot order.
    pub open spec fn live_nodes(self, n: int) -> Seq<GameNode>
        decreases n,
    {
        if n <= 0 {
            Seq::empty()
        } else {
            match self.slots[n - 1].0 {
                Some(node) => self.live_nodes(n - 1).push(node),
                None => self.live_nodes(n - 1),
            }
        }
    }

    /// The ancestry chain of `id`, at most `fuel` long: `id` if it is live,
    /// then its parent while that is live, and so on up to a root.
    pub open spec fn ancestry(self, id: GameNodeId, fuel: nat) -> Seq<GameNodeId>
        decreases fuel,
    {
        if fuel == 0 || !self.is_live(id) {
            Seq::empty()
        } else {
            match self.node(id)->0.parent_id {
                Some(p) => seq![id].add(self.ancestry(p, (fuel - 1) as nat)),
                None => seq![id],
            }
        }
    }

    /// Whether the ancestry chain of `id` ends within `fuel` nodes.
    pub open spec fn ancestry_ends(self, id: GameNodeId, fuel: nat) -> bool
        decreases fuel,
    {
        if !self.is_live(id) {
            true
        } else if fuel == 0 {
            false
        } else {
            match self.node(id)->0.parent_id {
                Some(p) => self.ancestry_ends(p, (fuel - 1) as nat),
                None => true,
            }
        }
    }

    /// Whether the ancestry chain of `id` fits the hierarchy cap.
    pub open spec fn within_cap(self, id: GameNodeId) -> bool {
        self.ancestry_ends(id, MAX_NODE_HIERARCHY_LEVELS as nat)
    }

    /// The ancestry chain of `id` (the node first, the root last).
    pub open spec fn ancestry_list(self, id: GameNodeId) -> Seq<GameNodeId> {
        self.ancestry(id, MAX_NODE_HIERARCHY_LEVELS as nat)
    }

    /// The local transform of a live node.
    pub open spec fn local_transform(self, id: GameNodeId) -> Transform {
        self.node(id)->0.transform
    }

    /// The composition of the transforms of `chain[k..]`, root-ward entry
    /// outermost: `t(chain[last]) * ... * t(chain[k])`.
    pub open spec fn fold_chain(self, chain: Seq<GameNodeId>, k: int) -> Transform
        decreases chain.len() - k,
    {
        if k >= chain.len() - 1 {
            self.local_transform(chain[chain.len() - 1])
        } else {
            composed(self.fold_chain(chain, k + 1), self.local_transform(chain[k]))
        }
    }

    /// The world transform of `id`: `root * ... * parent * node`, or the
    /// identity for an id that designates no node.
    pub open spec fn global_transform(self, id: GameNodeId) -> Transform {
        let chain = self.ancestry_list(id);
        if chain.len() == 0 {
            identity_spec()
        } else {
            self.fold_chain(chain, 0)
        }
    }

    /// The arena after writing `w` into its target's local transform; a
    /// write whose target no longer exists is dropped.
    pub open spec fn with_write(self, w: ChannelWrite) -> SceneView {
        if self.is_live(w.node_id) {
            let node = self.node(w.node_id)->0;
            SceneView {
                slots: self.slots.update(
                    w.node_id.0 as int,
                    (Some(GameNode { transform: written(node.transform, w.value), ..node }), w.node_id.1),
                ),
                ..self
            }
        } else {
            self
        }
    }

    /// The arena after the writes, applied in order.
    pub open spec fn with_writes(self, ws: Seq<ChannelWrite>) -> SceneView
        decreases ws.len(),
    {
        if ws.len() == 0 {
            self
        } else {
            self.with_writes(ws.drop_last()).with_write(ws.last())
        }
    }

    /// The parent slot index of the node in `bone`'s slot, if that slot
    /// holds a node with a parent.
    pub open spec fn bone_parent(self, bone: GameNodeId) -> Option<u32> {
        if (bone.0 as int) < self.slots.len() {
            match self.slots[bone.0 as int].0 {
                Some(n) => match n.parent_id {
                    Some(p) => Some(p.0),
                    None => None,
                },
                None => None,
            }
        } else {
            None
        }
    }

    /// Bone slot index -> parent slot index over the first `n` bones of
    /// `skin`.
    pub open spec fn bone_parent_map(self, skin: Skin, n: int) -> Map<u32, u32>
        decreases n,
    {
        if n <= 0 {
            Map::empty()
        } else {
            let m = self.bone_parent_map(skin, n - 1);
            let bone = skin.bone_node_ids@[n - 1];
            match self.bone_parent(bone) {
                Some(p) => m.insert(bone.0, p),
                None => m,
            }
        }
    }

    /// Skin node slot index -> bone parent map, over the first `n` skins
    /// (a later skin on the same node replaces an earlier one).
    pub open spec fn skeleton_maps(self, n: int) -> Map<u32, Map<u32, u32>>
        decreases n,
    {
        if n <= 0 {
            Map::empty()
        } else {
            let skin = self.skins[n - 1];
            self.skeleton_maps(n - 1).insert(
                skin.node_id.0,
                self.bone_parent_map(skin, skin.bone_node_ids@.len() as int),
            )
        }
    }

    /// The skeleton parent maps of all skins.
    pub open spec fn all_skeleton_maps(self) -> Map<u32, Map<u32, u32>> {
        self.skeleton_maps(self.skins.len() as int)
    }

    /// The handle of the node in slot `i`.
    pub open spec fn slot_id(self, i: int) -> GameNodeId {
        GameNodeId(i as u32, self.slots[i].1)
    }

    /// Whether every live node's ancestry chain fits the hierarchy cap.
    pub open spec fn hierarchy_within_cap(self) -> bool {
        forall|i: int|
            0 <= i < self.slots.len() && (#[trigger] self.slots[i]).0 is Some ==> self.within_cap(
                self.slot_id(i),
            )
    }

    /// What the transform cache holds for slot `i` once recomputed: the
    /// world transform of its node, or the identity for an empty slot.
    pub open spec fn cached_transform(self, i: int) -> Transform {
        if self.slots[i].0 is Some {
            self.global_transform(self.slot_id(i))
        } else {
            identity_spec()
        }
    }

    /// Whether every live node's skin index names a skin.
    pub open spec fn skin_indices_valid(self) -> bool {
        forall|i: int|
            0 <= i < self.slots.len() ==> ((#[trigger] self.slots[i]).0 matches Some(n) ==> (
            n.skin_index matches Some(k) ==> k < self.skins.len()))
    }

    /// Among the first `n` slots, the first live node carrying a skin that
    /// lists `bone` among its bones; its handle.
    pub open spec fn skin_carrier_of(self, bone: GameNodeId, n: int) -> Option<GameNodeId>
        decreases n,
    {
        if n <= 0 {
            None
        } else {
            match self.skin_carrier_of(bone, n - 1) {
                Some(x) => Some(x),
                None => match self.slots[n - 1].0 {
                    Some(node) => match node.skin_index {
                        Some(k) => if self.skins[k as int].bone_node_ids@.contains(bone) {
                            Some(node.id)
                        } else {
                            None
                        },
                        None => None,
                    },
                    None => None,
                },
            }
        }
    }

    /// The number of live nodes among the first `n` slots.
    pub open spec fn live_count(self, n: int) -> nat
        decreases n,
    {
        if n <= 0 {
            0
        } else {
            self.live_count(n - 1) + if self.slots[n - 1].0 is Some { 1nat } else { 0nat }
        }
    }
}


/// A skeleton: the node that carries it, its bones, and per bone the
/// inverse bind matrix (16 bit patterns, column-major) and the transform of
/// a box around the bone's vertices.
#[derive(Clone, Debug)]
pub struct Skin {
    pub node_id: GameNodeId,
    pub bone_node_ids: Vec<GameNodeId>,
    pub bone_inverse_bind_matrices: Vec<[u32; 16]>,
    /// each transform moves a 2x2x2 box centered at the origin
    /// such that it surrounds the bone's vertices in bone space
    pub bone_bounding_box_transforms: Vec<Transform>,
}

/// The chain of slot indices from `i` through the parent map `m`, at most
/// `fuel` steps: `i`, then `m[i]` while the current index has an entry.
pub open spec fn skeleton_chain(m: Map<u32, u32>, i: u32, fuel: nat) -> Seq<u32>
    decreases fuel,
{
    if m.contains_key(i) && fuel > 0 {
        seq![i].add(skeleton_chain(m, m[i], (fuel - 1) as nat))
    } else {
        seq![i]
    }
}

/// Whether the chain from `i` through `m` reaches an index without an
/// entry within `fuel` steps.
pub open spec fn skeleton_chain_ends(m: Map<u32, u32>, i: u32, fuel: nat) -> bool
    decreases fuel,
{
    !m.contains_key(i) || (fuel > 0 && skeleton_chain_ends(m, m[i], (fuel - 1) as nat))
}

/// The items of `v` in the opposite order.
pub(crate) fn into_reversed<T>(v: Vec<T>) -> (r: Vec<T>)
    ensures
        r@ =~= v@.reverse(),
{
    let mut v = v;
    let ghost original = v@;
    let mut r: Vec<T> = Vec::new();
    while v.len() > 0
        invariant
            original.len() == v@.len() + r@.len(),
            v@ =~= original.take(v@.len() as int),
            forall|k: int| 0 <= k < r@.len() ==> r@[k] == original[original.len() - 1 - k],
        decreases v@.len(),
    {
        let x = v.pop().unwrap();
        r.push(x);
    }
    r
}

/// The scene graph.
#[derive(Debug)]
pub struct Scene {
    nodes: Vec<(Option<GameNode>, usize)>,
    empty_node_indices: Vec<usize>,
    global_node_transforms: Vec<Transform>,
    global_node_bounding_spheres: Vec<Sphere>,
    pub skins: Vec<Skin>,
    pub animations: Vec<Animation>,
    /// skeleton skin node index -> (bone node index -> parent node index)
    skeleton_parent_index_maps: HashMap<u32, HashMap<u32, u32>>,
}

impl View for Scene {
    type V = SceneView;

    closed spec fn view(&self) -> SceneView {
        SceneView {
            slots: self.nodes@,
            free_slots: self.empty_node_indices@,
            skins: self.skins@,
            animations: self.animations@,
        }
    }
}

impl SceneView {
    /// Freed slots are in range, empty, and listed once.
    pub open spec fn wf(self) -> bool {
        &&& self.slots.len() <= u32::MAX
        &&& forall|k: int|
            0 <= k < self.free_slots.len() ==> {
                &&& (#[trigger] self.free_slots[k]) < self.slots.len()
                &&& self.slots[self.free_slots[k] as int].0 is None
            }
        &&& forall|j: int, k: int|
            0 <= j < k < self.free_slots.len() ==> #[trigger] self.free_slots[j]
                != #[trigger] self.free_slots[k]
    }

    /// The arena after `add_node` put `node` under `self.next_id()`.
    pub open spec fn added(self, node: GameNode) -> SceneView {
        let id = self.next_id();
        if self.free_slots.len() > 0 {
            SceneView {
                slots: self.slots.update(id.0 as int, (Some(node), id.1)),
                free_slots: self.free_slots.drop_last(),
                ..self
            }
        } else {
            SceneView { slots: self.slots.push((Some(node), 0)), ..self }
        }
    }

    /// The arena after `remove_node(id)`: a live node's slot is emptied,
    /// keeping its generation, and pushed on the free stack; a stale id
    /// changes nothing.
    pub open spec fn removed(self, id: GameNodeId) -> SceneView {
        if self.is_live(id) {
            SceneView {
                slots: self.slots.update(id.0 as int, (None, id.1)),
                free_slots: self.free_slots.push(id.0 as usize),
                ..self
            }
        } else {
            self
        }
    }
}

impl Scene {
    /// The arena's invariant.
    pub open spec fn wf(&self) -> bool {
        self@.wf()
    }

    /// The cached world transforms, one per slot, as last recomputed.
    pub closed spec fn global_transforms(&self) -> Seq<Transform> {
        self.global_node_transforms@
    }

    /// The cached bounding spheres, one per slot, as last stored.
    pub closed spec fn bounding_spheres(&self) -> Seq<Sphere> {
        self.global_node_bounding_spheres@
    }

    /// The stored skeleton parent maps, as last rebuilt.
    pub closed spec fn skeleton_parent_maps(&self) -> Map<u32, Map<u32, u32>> {
        Map::new(
            |k: u32| self.skeleton_parent_index_maps@.contains_key(k),
            |k: u32| self.skeleton_parent_index_maps@[k]@,
        )
    }

    /// Recomputes the skeleton parent maps from the current nodes and skins.
    pub fn rebuild_skeleton_parent_index_maps(&mut self)
        ensures
            final(self)@ == old(self)@,
            final(self).skeleton_parent_maps() == final(self)@.all_skeleton_maps(),
    {
        broadcast use vstd::std_specs::hash::group_hash_axioms;

        let mut maps: HashMap<u32, HashMap<u32, u32>> = HashMap::new();
        let mut k: usize = 0;
        while k < self.skins.len()
            invariant
                k <= self@.skins.len(),
                Map::new(|x: u32| maps@.contains_key(x), |x: u32| maps@[x]@) =~= self@.skeleton_maps(
                    k as int,
                ),
            decreases self@.skins.len() - k,
        {
            let skin = &self.skins[k];
            let mut bone_map: HashMap<u32, u32> = HashMap::new();
            let mut b: usize = 0;
            while b < skin.bone_node_ids.len()
                invariant
                    k < self@.skins.len(),
                    *skin == self@.skins[k as int],
                    b <= skin.bone_node_ids@.len(),
                    bone_map@ == self@.bone_parent_map(*skin, b as int),
                decreases skin.bone_node_ids@.len() - b,
            {
                let bone = skin.bone_node_ids[b];
                let index = bone.0 as usize;
                if index < self.nodes.len() {
                    match &self.nodes[index].0 {
                        Some(node) => match node.parent_id {
                            Some(p) => {
                                bone_map.insert(bone.0, p.0);
                            },
                            None => {},
                        },
                        None => {},
                    }
                }
                b = b + 1;
            }
            let ghost before = maps@;
            maps.insert(skin.node_id.0, bone_map);
            proof {
                assert(Map::new(|x: u32| maps@.contains_key(x), |x: u32| maps@[x]@)
                    =~= Map::new(|x: u32| before.contains_key(x), |x: u32| before[x]@).insert(
                    skin.node_id.0,
                    self@.bone_parent_map(*skin, skin.bone_node_ids@.len() as int),
                ));
            }
            k = k + 1;
        }
        self.skeleton_parent_index_maps = maps;
    }

    /// The handles of the slots along a chain of slot indices, each with
    /// its slot's current generation.
    pub open spec fn slot_handles(&self, chain: Seq<u32>) -> Seq<GameNodeId> {
        chain.map_values(|i: u32| GameNodeId(i, self@.slots[i as int].1))
    }

    /// Whether the skeleton ancestry of `node_id` under the skeleton of
    /// `skeleton_root_node_id` can be listed: the chain ends within the
    /// hierarchy cap and stays among existing slots.
    pub open spec fn skeleton_ancestry_defined(
        &self,
        node_id: GameNodeId,
        skeleton_root_node_id: GameNodeId,
    ) -> bool {
        let maps = self.skeleton_parent_maps();
        maps.contains_key(skeleton_root_node_id.0) ==> {
            let m = maps[skeleton_root_node_id.0];
            &&& skeleton_chain_ends(m, node_id.0, MAX_NODE_HIERARCHY_LEVELS as nat)
            &&& forall|j: int|
                0 <= j < skeleton_chain(m, node_id.0, MAX_NODE_HIERARCHY_LEVELS as nat).len() ==> (
                #[trigger] skeleton_chain(m, node_id.0, MAX_NODE_HIERARCHY_LEVELS as nat)[j])
                    < self@.slots.len()
        }
    }

    /// The skeleton ancestry of `node_id`: the node, then its parents as the
    /// skeleton parent map of `skeleton_root_node_id`'s skin records them,
    /// until one has no entry. Empty when that node carries no skin.
    pub open spec fn skeleton_ancestry(
        &self,
        node_id: GameNodeId,
        skeleton_root_node_id: GameNodeId,
    ) -> Seq<GameNodeId> {
        let maps = self.skeleton_parent_maps();
        if maps.contains_key(skeleton_root_node_id.0) {
            self.slot_handles(
                skeleton_chain(
                    maps[skeleton_root_node_id.0],
                    node_id.0,
                    MAX_NODE_HIERARCHY_LEVELS as nat,
                ),
            )
        } else {
            Seq::empty()
        }
    }

    /// The skeleton ancestry of `node_id` (see `skeleton_ancestry`).
    pub fn get_skeleton_node_ancestry_list(
        &self,
        node_id: GameNodeId,
        skeleton_root_node_id: GameNodeId,
    ) -> (r: Vec<GameNodeId>)
        requires
            self.skeleton_ancestry_defined(node_id, skeleton_root_node_id),
        ensures
            r@ == self.skeleton_ancestry(node_id, skeleton_root_node_id),
    {
        broadcast use vstd::std_specs::hash::group_hash_axioms;

        match self.skeleton_parent_index_maps.get(&skeleton_root_node_id.0) {
            None => Vec::new(),
            Some(map) => {
                let ghost m = map@;
                assert(self.skeleton_parent_maps().contains_key(skeleton_root_node_id.0));
                assert(m == self.skeleton_parent_maps()[skeleton_root_node_id.0]);
                let ghost full = skeleton_chain(m, node_id.0, MAX_NODE_HIERARCHY_LEVELS as nat);
                let mut r: Vec<GameNodeId> = Vec::new();
                let mut current = node_id.0;
                let mut fuel: usize = MAX_NODE_HIERARCHY_LEVELS;
                loop
                    invariant
                        map@ == m,
                        self.skeleton_parent_maps().contains_key(skeleton_root_node_id.0),
                        self.skeleton_parent_maps()[skeleton_root_node_id.0] == m,
                        fuel <= MAX_NODE_HIERARCHY_LEVELS,
                        skeleton_chain_ends(m, current, fuel as nat),
                        r@.len() + fuel == MAX_NODE_HIERARCHY_LEVELS,
                        full == skeleton_chain(m, node_id.0, MAX_NODE_HIERARCHY_LEVELS as nat),
                        forall|j: int| 0 <= j < full.len() ==> (#[trigger] full[j]) < self@.slots.len(),
                        full =~= full.take(r@.len() as int) + skeleton_chain(m, current, fuel as nat),
                        r@ =~= self.slot_handles(full.take(r@.len() as int)),
                    decreases fuel,
                {
                    assert(full[r@.len() as int] == current);
                    let generation = self.nodes[current as usize].1;
                    r.push(GameNodeId(current, generation));
                    let ghost rest = skeleton_chain(m, current, fuel as nat);
                    match map.get(&current) {
                        Some(parent) => {
                            let parent = *parent;
                            assert(fuel > 0);
                            assert(full.take(r@.len() as int) =~= full.take(r@.len() - 1).push(current));
                            current = parent;
                            fuel = fuel - 1;
                            assert(rest =~= seq![full[r@.len() - 1]].add(skeleton_chain(m, current, fuel as nat)));
                        },
                        None => {
                            assert(rest =~= seq![current]);
                            assert(full.take(r@.len() as int) =~= full.take(r@.len() - 1).push(current));
                            assert(full.take(r@.len() as int) =~= full);
                            assert(r@ =~= self.slot_handles(full));
                            return r;
                        },
                    }
                }
            },
        }
    }

    /// Whether every live node's ancestry chain fits the hierarchy cap.
    pub fn hierarchy_within_cap(&self) -> (r: bool)
        requires
            self.wf(),
        ensures
            r == self@.hierarchy_within_cap(),
    {
        let mut i: usize = 0;
        while i < self.nodes.len()
            invariant
                i <= self@.slots.len(),
                self@.slots.len() <= u32::MAX,
                forall|j: int|
                    0 <= j < i && (#[trigger] self@.slots[j]).0 is Some ==> self@.within_cap(
                        self@.slot_id(j),
                    ),
            decreases self@.slots.len() - i,
        {
            if self.nodes[i].0.is_some() {
                if !self.ancestry_within_cap(GameNodeId(i as u32, self.nodes[i].1)) {
                    return false;
                }
            }
            i = i + 1;
        }
        true
    }

    /// Recomputes the world transform of every slot (the identity for an
    /// empty one) into the transform cache, which then has one entry per
    /// slot.
    pub fn recompute_global_node_transforms(&mut self)
        requires
            old(self).wf(),
            old(self)@.hierarchy_within_cap(),
        ensures
            final(self).wf(),
            final(self)@ == old(self)@,
            final(self).skeleton_parent_maps() == old(self).skeleton_parent_maps(),
            final(self).bounding_spheres() == old(self).bounding_spheres(),
            final(self).global_transforms().len() == final(self)@.slots.len(),
            forall|i: int|
                0 <= i < final(self)@.slots.len() ==> #[trigger] final(self).global_transforms()[i]
                    == final(self)@.cached_transform(i),
    {
        let mut transforms: Vec<Transform> = Vec::new();
        let mut i: usize = 0;
        while i < self.nodes.len()
            invariant
                i <= self@.slots.len(),
                self.wf(),
                self@.slots.len() <= u32::MAX,
                self@.hierarchy_within_cap(),
                transforms@.len() == i,
                forall|j: int| 0 <= j < i ==> #[trigger] transforms@[j] == self@.cached_transform(j),
            decreases self@.slots.len() - i,
        {
            let transform = if self.nodes[i].0.is_some() {
                proof {
                    assert(self@.slots[i as int].0 is Some);
                }
                self.get_global_transform_for_node(GameNodeId(i as u32, self.nodes[i].1))
            } else {
                Transform::identity()
            };
            transforms.push(transform);
            i = i + 1;
        }
        self.global_node_transforms = transforms;
    }

    /// Stores the bounding spheres computed for this tick, one per slot.
    pub fn set_global_node_bounding_spheres(&mut self, spheres: Vec<Sphere>)
        requires
            spheres@.len() == old(self)@.slots.len(),
        ensures
            final(self)@ == old(self)@,
            final(self).skeleton_parent_maps() == old(self).skeleton_parent_maps(),
            final(self).global_transforms() == old(self).global_transforms(),
            final(self).bounding_spheres() == spheres@,
    {
        self.global_node_bounding_spheres = spheres;
    }

    /// The cached world transform of the slot of `node_id`.
    pub fn get_global_transform_for_node_opt(&self, node_id: GameNodeId) -> (r: Transform)
        requires
            (node_id.0 as int) < self.global_transforms().len(),
        ensures
            r == self.global_transforms()[node_id.0 as int],
    {
        self.global_node_transforms[node_id.0 as usize]
    }

    /// The cached bounding sphere of the slot of `node_id`.
    pub fn get_node_bounding_sphere_opt(&self, node_id: GameNodeId) -> (r: Sphere)
        requires
            (node_id.0 as int) < self.bounding_spheres().len(),
        ensures
            r == self.bounding_spheres()[node_id.0 as int],
    {
        self.global_node_bounding_spheres[node_id.0 as usize]
    }

    /// Adds a node, reusing the most recently freed slot (one generation
    /// up) if there is one, and appending a slot of generation 0 if not.
    pub fn add_node(&mut self, node: GameNodeDesc) -> (r: &GameNode)
        requires
            old(self).wf(),
            old(self)@.can_add(),
        ensures
            final(self).wf(),
            r.made_from(node, old(self)@.next_id()),
            final(self)@ == old(self)@.added(*r),
            final(self).skeleton_parent_maps() == old(self).skeleton_parent_maps(),
    {
        let GameNodeDesc { transform, skin_index, visual, name, parent_id } = node;
        match self.empty_node_indices.pop() {
            Some(empty_node_index) => {
                let new_gen = self.nodes[empty_node_index].1 + 1;
                let id = GameNodeId(empty_node_index as u32, new_gen);
                let new_node = GameNode { transform, skin_index, visual, name, parent_id, id };
                self.nodes.set(empty_node_index, (Some(new_node), new_gen));
                assert forall|j: int, k: int|
                    0 <= j < k < self@.free_slots.len() implies #[trigger] self@.free_slots[j]
                        != #[trigger] self@.free_slots[k] by {
                    assert(old(self)@.free_slots[j] != old(self)@.free_slots[k]);
                }
                assert forall|k: int| 0 <= k < self@.free_slots.len() implies
                    (#[trigger] self@.free_slots[k]) < self@.slots.len()
                    && self@.slots[self@.free_slots[k] as int].0 is None by {
                    assert(old(self)@.free_slots[k] != old(self)@.free_slots[old(self)@.free_slots.len() - 1]);
                }
                assert(self@ =~= old(self)@.added(new_node));
                self.nodes[empty_node_index].0.as_ref().unwrap()
            },
            None => {
                let index = self.nodes.len();
                let id = GameNodeId(index as u32, 0);
                let new_node = GameNode { transform, skin_index, visual, name, parent_id, id };
                self.nodes.push((Some(new_node), 0));
                assert forall|k: int| 0 <= k < self@.free_slots.len() implies
                    (#[trigger] self@.free_slots[k]) < self@.slots.len()
                    && self@.slots[self@.free_slots[k] as int].0 is None by {
                    assert(old(self)@.free_slots[k] < old(self)@.slots.len());
                }
                assert(self@ =~= old(self)@.added(new_node));
                self.nodes[index].0.as_ref().unwrap()
            },
        }
    }

    /// The node that `id` designates, or `None` when its slot is out of
    /// range, empty, or of another generation.
    pub fn get_node(&self, node_id: GameNodeId) -> (r: Option<&GameNode>)
        ensures
            match r {
                Some(n) => self@.node(node_id) == Some(*n),
                None => self@.node(node_id) is None,
            },
    {
        let index = node_id.0 as usize;
        if index < self.nodes.len() && self.nodes[index].1 == node_id.1 {
            self.nodes[index].0.as_ref()
        } else {
            None
        }
    }

    /// The node in the slot of `id`, whatever its generation.
    pub fn get_node_unchecked(&self, node_id: GameNodeId) -> (r: &GameNode)
        requires
            (node_id.0 as int) < self@.slots.len(),
            self@.slots[node_id.0 as int].0 is Some,
        ensures
            *r == self@.slots[node_id.0 as int].0->0,
    {
        self.nodes[node_id.0 as usize].0.as_ref().unwrap()
    }

    /// The node in slot `node_index`, whatever its generation.
    pub fn _get_node_by_index(&self, node_index: usize) -> (r: Option<&GameNode>)
        requires
            node_index < self@.slots.len(),
        ensures
            match r {
                Some(n) => self@.slots[node_index as int].0 == Some(*n),
                None => self@.slots[node_index as int].0 is None,
            },
    {
        self.nodes[node_index].0.as_ref()
    }

    /// The handle of the first live node (in slot order) whose skin lists
    /// `node_id` among its bones.
    pub fn _get_skeleton_skin_node_id(&self, node_id: GameNodeId) -> (r: Option<GameNodeId>)
        requires
            self@.skin_indices_valid(),
        ensures
            r == self@.skin_carrier_of(node_id, self@.slots.len() as int),
    {
        let mut i: usize = 0;
        while i < self.nodes.len()
            invariant
                i <= self@.slots.len(),
                self@.skin_indices_valid(),
                self@.skin_carrier_of(node_id, i as int) is None,
            decreases self@.slots.len() - i,
        {
            match &self.nodes[i].0 {
                Some(node) => match node.skin_index {
                    Some(k) => {
                        let bones = &self.skins[k].bone_node_ids;
                        let mut b: usize = 0;
                        while b < bones.len()
                            invariant
                                b <= bones@.len(),
                                forall|j: int| 0 <= j < b ==> bones@[j] != node_id,
                                i < self@.slots.len(),
                                self@.skin_carrier_of(node_id, i as int) is None,
                                self@.slots[i as int].0 == Some(*node),
                                node.skin_index == Some(k),
                                k < self@.skins.len(),
                                *bones == self@.skins[k as int].bone_node_ids,
                            decreases bones@.len() - b,
                        {
                            if bones[b] == node_id {
                                assert(bones@.contains(node_id));
                                proof {
                                    lemma_skin_carrier_prefix(self@, node_id, i + 1);
                                }
                                return Some(node.id);
                            }
                            b = b + 1;
                        }
                    },
                    None => {},
                },
                None => {},
            }
            i = i + 1;
        }
        None
    }

    /// Mutable access to the node that `id` designates.
    pub fn get_node_mut(&mut self, node_id: GameNodeId) -> (r: Option<&mut GameNode>)
        ensures
            final(self).skeleton_parent_maps() == old(self).skeleton_parent_maps(),
            final(self)@.free_slots == old(self)@.free_slots,
            final(self)@.skins == old(self)@.skins,
            final(self)@.animations == old(self)@.animations,
            match old(self)@.node(node_id) {
                None => r is None && final(self)@.slots == old(self)@.slots,
                Some(n) => {
                    &&& r is Some
                    &&& *r->0 == n
                    &&& final(self)@.slots == old(self)@.slots.update(
                        node_id.0 as int,
                        (Some(*final(r->0)), node_id.1),
                    )
                },
            },
    {
        let index = node_id.0 as usize;
        if index < self.nodes.len() && self.nodes[index].1 == node_id.1 {
            match &mut self.nodes[index].0 {
                Some(node) => Some(node),
                None => None,
            }
        } else {
            None
        }
    }

    /// The number of slots, live or freed.
    pub fn slot_count(&self) -> (r: usize)
        ensures
            r == self@.slots.len(),
    {
        self.nodes.len()
    }

    /// The number of live nodes.
    pub fn node_count(&self) -> (r: usize)
        ensures
            r == self@.live_count(self@.slots.len() as int),
    {
        let mut count: usize = 0;
        let mut i: usize = 0;
        while i < self.nodes.len()
            invariant
                i <= self.nodes.len(),
                count == self@.live_count(i as int),
                count <= i,
            decreases self.nodes.len() - i,
        {
            if self.nodes[i].0.is_some() {
                count = count + 1;
            }
            i = i + 1;
        }
        count
    }

    /// The live nodes, in slot order.
    pub fn nodes(&self) -> (r: Vec<&GameNode>)
        ensures
            r@.len() == self@.live_nodes(self@.slots.len() as int).len(),
            forall|k: int|
                0 <= k < r@.len() ==> *r@[k] == self@.live_nodes(self@.slots.len() as int)[k],
    {
        let mut r: Vec<&GameNode> = Vec::new();
        let mut i: usize = 0;
        while i < self.nodes.len()
            invariant
                i <= self.nodes.len(),
                r@.len() == self@.live_nodes(i as int).len(),
                forall|k: int| 0 <= k < r@.len() ==> *r@[k] == self@.live_nodes(i as int)[k],
            decreases self.nodes.len() - i,
        {
            match self.nodes[i].0.as_ref() {
                Some(node) => r.push(node),
                None => {},
            }
            i = i + 1;
        }
        r
    }

    /// Whether the ancestry chain of `id` fits the hierarchy cap.
    pub fn ancestry_within_cap(&self, node_id: GameNodeId) -> (r: bool)
        ensures
            r == self@.within_cap(node_id),
    {
        let mut current = node_id;
        let mut fuel: usize = MAX_NODE_HIERARCHY_LEVELS;
        loop
            invariant
                fuel <= MAX_NODE_HIERARCHY_LEVELS,
                self@.within_cap(node_id) == self@.ancestry_ends(current, fuel as nat),
            decreases fuel,
        {
            match self.get_node(current) {
                None => return true,
                Some(node) => {
                    if fuel == 0 {
                        return false;
                    }
                    match node.parent_id {
                        None => return true,
                        Some(p) => {
                            current = p;
                            fuel = fuel - 1;
                        },
                    }
                },
            }
        }
    }

    /// The ancestry chain of `id`: the node, its parent, and so on up to
    /// the root, stopping at a parent that no longer exists.
    fn get_node_ancestry_list(&self, node_id: GameNodeId) -> (r: Vec<GameNodeId>)
        requires
            self@.within_cap(node_id),
        ensures
            r@ == self@.ancestry_list(node_id),
    {
        let mut r: Vec<GameNodeId> = Vec::new();
        let mut current = node_id;
        loop
            invariant
                r@.len() <= MAX_NODE_HIERARCHY_LEVELS,
                self@.ancestry_ends(current, (MAX_NODE_HIERARCHY_LEVELS - r@.len()) as nat),
                r@ + self@.ancestry(current, (MAX_NODE_HIERARCHY_LEVELS - r@.len()) as nat)
                    == self@.ancestry_list(node_id),
            decreases MAX_NODE_HIERARCHY_LEVELS - r@.len(),
        {
            let fuel = Ghost((MAX_NODE_HIERARCHY_LEVELS - r@.len()) as nat);
            match self.get_node(current) {
                None => {
                    assert(r@ + Seq::<GameNodeId>::empty() =~= r@);
                    return r;
                },
                Some(node) => {
                    let parent = node.parent_id;
                    r.push(current);
                    match parent {
                        None => {
                            assert(r@ =~= r@.drop_last() + self@.ancestry(current, fuel@));
                            return r;
                        },
                        Some(p) => {
                            assert(r@ + self@.ancestry(p, (fuel@ - 1) as nat) =~= r@.drop_last()
                                + self@.ancestry(current, fuel@));
                            current = p;
                        },
                    }
                },
            }
        }
    }

    /// The world transform of the node that `id` designates: the local
    /// transforms of its ancestry chain composed root first,
    /// `root * ... * parent * node`. An id that designates no node gets the
    /// identity.
    pub fn get_global_transform_for_node(&self, node_id: GameNodeId) -> (r: Transform)
        requires
            self@.within_cap(node_id),
        ensures
            r == self@.global_transform(node_id),
    {
        let chain = self.get_node_ancestry_list(node_id);
        proof {
            lemma_ancestry_live(self@, node_id, MAX_NODE_HIERARCHY_LEVELS as nat);
        }
        if chain.len() == 0 {
            return Transform::identity();
        }
        let mut k: usize = chain.len() - 1;
        let mut acc = self.get_node(chain[k]).unwrap().transform;
        while k > 0
            invariant
                k < chain@.len(),
                chain@ == self@.ancestry_list(node_id),
                forall|j: int| 0 <= j < chain@.len() ==> self@.is_live(#[trigger] chain@[j]),
                acc == self@.fold_chain(chain@, k as int),
            decreases k,
        {
            k = k - 1;
            let local = self.get_node(chain[k]).unwrap().transform;
            acc = acc.mul(&local);
        }
        acc
    }

    /// Applies a tick's staged writes in order. A write whose target node
    /// no longer exists is dropped.
    pub fn apply_channel_writes(&mut self, writes: &Vec<ChannelWrite>)
        requires
            old(self).wf(),
        ensures
            final(self).wf(),
            final(self)@ == old(self)@.with_writes(writes@),
            final(self).skeleton_parent_maps() == old(self).skeleton_parent_maps(),
    {
        let mut i: usize = 0;
        while i < writes.len()
            invariant
                i <= writes@.len(),
                self.wf(),
                self@ == old(self)@.with_writes(writes@.take(i as int)),
                self.skeleton_parent_maps() == old(self).skeleton_parent_maps(),
            decreases writes@.len() - i,
        {
            let w = writes[i];
            let ghost before = self@;
            match self.get_node_mut(w.node_id) {
                Some(node) => match w.value {
                    NodeProperty::Translation(p) => node.transform.set_position(p),
                    NodeProperty::Scale(sc) => node.transform.set_scale(sc),
                    NodeProperty::Rotation(q) => node.transform.set_rotation(q),
                },
                None => {},
            }
            proof {
                assert(writes@.take(i + 1).drop_last() =~= writes@.take(i as int));
                assert(self@.slots =~= before.with_write(w).slots);
            }
            i = i + 1;
        }
        assert(writes@.take(i as int) =~= writes@);
    }

    /// Removes the node that `id` designates; a stale id is a no-op.
    /// Children are not removed: their ancestry now stops at them.
    pub fn remove_node(&mut self, node_id: GameNodeId)
        requires
            old(self).wf(),
        ensures
            final(self).wf(),
            final(self)@ == old(self)@.removed(node_id),
            final(self).skeleton_parent_maps() == old(self).skeleton_parent_maps(),
    {
        if self.get_node(node_id).is_some() {
            let index = node_id.0 as usize;
            self.nodes.set(index, (None, node_id.1));
            self.empty_node_indices.push(index);
            assert forall|j: int, k: int|
                0 <= j < k < self@.free_slots.len() implies #[trigger] self@.free_slots[j]
                    != #[trigger] self@.free_slots[k] by {
                if k < self@.free_slots.len() - 1 {
                    assert(old(self)@.free_slots[j] != old(self)@.free_slots[k]);
                } else {
                    assert(old(self)@.slots[old(self)@.free_slots[j] as int].0 is None);
                }
            }
            assert forall|k: int| 0 <= k < self@.free_slots.len() implies
                (#[trigger] self@.free_slots[k]) < self@.slots.len()
                && self@.slots[self@.free_slots[k] as int].0 is None by {
                if k < self@.free_slots.len() - 1 {
                    assert(old(self)@.free_slots[k] < old(self)@.slots.len());
                }
            }
            assert(self@ =~= old(self)@.removed(node_id));
        }
    }
}


/// A skin carrier found among the first `n` slots is the first overall.
proof fn lemma_skin_carrier_prefix(s: SceneView, bone: GameNodeId, n: int)
    requires
        0 <= n <= s.slots.len(),
        s.skin_carrier_of(bone, n) is Some,
    ensures
        s.skin_carrier_of(bone, s.slots.len() as int) == s.skin_carrier_of(bone, n),
    decreases s.slots.len() - n,
{
    if n < s.slots.len() {
        lemma_skin_carrier_prefix(s, bone, n + 1);
    }
}

impl Default for Scene {
    /// An empty scene.
    fn default() -> (r: Scene)
        ensures
            r.wf(),
            r@.slots.len() == 0,
            r@.free_slots.len() == 0,
            r@.skins.len() == 0,
            r@.animations.len() == 0,
            r.skeleton_parent_maps() == Map::<u32, Map<u32, u32>>::empty(),
    {
        let r = Scene {
            nodes: Vec::new(),
            empty_node_indices: Vec::new(),
            global_node_transforms: Vec::new(),
            global_node_bounding_spheres: Vec::new(),
            skins: Vec::new(),
            animations: Vec::new(),
            skeleton_parent_index_maps: HashMap::new(),
        };
        assert(r.skeleton_parent_maps() =~= Map::<u32, Map<u32, u32>>::empty());
        r
    }
}

/// Every entry of an ancestry chain is a live node.
pub proof fn lemma_ancestry_live(s: SceneView, id: GameNodeId, fuel: nat)
    ensures
        forall|j: int|
            0 <= j < s.ancestry(id, fuel).len() ==> s.is_live(#[trigger] s.ancestry(id, fuel)[j]),
    decreases fuel,
{
    if fuel > 0 && s.is_live(id) {
        match s.node(id)->0.parent_id {
            Some(p) => {
                lemma_ancestry_live(s, p, (fuel - 1) as nat);
                assert forall|j: int| 0 <= j < s.ancestry(id, fuel).len() implies s.is_live(
                    #[trigger] s.ancestry(id, fuel)[j],
                ) by {
                    if j > 0 {
                        assert(s.ancestry(id, fuel)[j] == s.ancestry(p, (fuel - 1) as nat)[j - 1]);
                    }
                }
            },
            None => {},
        }
    }
}

/// Freeing a live node's slot and adding a node reuses that slot one
/// generation up: the new handle designates the new node, and the old
/// handle designates nothing.
pub proof fn lemma_freed_slot_reuse(s: SceneView, id: GameNodeId, node: GameNode)
    requires
        s.wf(),
        s.is_live(id),
        s.removed(id).can_add(),
    ensures
        s.removed(id).next_id() == GameNodeId(id.0, (id.1 + 1) as usize),
        s.removed(id).added(node).node(id) is None,
        s.removed(id).added(node).node(s.removed(id).next_id()) == Some(node),
        s.removed(id).added(node).slots.len() == s.slots.len(),
{
}

/// A handle whose slot has moved past its generation designates no node,
/// and adding or removing nodes keeps the slot past it: generations never
/// go down.
pub proof fn lemma_outdated_id_stays_stale(
    s: SceneView,
    id: GameNodeId,
    node: GameNode,
    other: GameNodeId,
)
    requires
        s.wf(),
        (id.0 as int) < s.slots.len(),
        s.slots[id.0 as int].1 > id.1,
    ensures
        s.node(id) is None,
        s.can_add() ==> s.added(node).slots[id.0 as int].1 > id.1,
        s.removed(other).slots[id.0 as int].1 > id.1,
{
}

/// Global transforms compose along the hierarchy: for a root, a child of
/// it and a grandchild, the grandchild's world transform is
/// `root * parent * grandchild`.
pub proof fn lemma_global_transform_three_levels(
    s: SceneView,
    root: GameNodeId,
    parent: GameNodeId,
    grandchild: GameNodeId,
)
    requires
        s.is_live(root),
        s.is_live(parent),
        s.is_live(grandchild),
        s.node(grandchild)->0.parent_id == Some(parent),
        s.node(parent)->0.parent_id == Some(root),
        s.node(root)->0.parent_id is None,
    ensures
        s.global_transform(grandchild) == composed(
            composed(s.local_transform(root), s.local_transform(parent)),
            s.local_transform(grandchild),
        ),
{
    let chain = s.ancestry_list(grandchild);
    assert(s.ancestry(root, 30) == seq![root]);
    assert(s.ancestry(parent, 31) == seq![parent].add(seq![root]));
    assert(chain == seq![grandchild].add(seq![parent].add(seq![root])));
    assert(chain.len() == 3);
    assert(s.fold_chain(chain, 2) == s.local_transform(root));
    assert(s.fold_chain(chain, 1) == composed(s.local_transform(root), s.local_transform(parent)));
}


} // verus!
