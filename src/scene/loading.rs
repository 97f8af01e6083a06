//! Building a scene from the asset loader's flat, index-based description.
use vstd::prelude::*;
use crate::animation::{Animation, AnimationState, Channel, Interpolation, LoopType, Property};
use crate::transform::Transform;
use super::{GameNode, GameNodeDesc, GameNodeId, GameNodeVisual, Scene, Skin, into_reversed};
use std::collections::HashMap;

verus! {

/// A node as the asset loader describes it, its parent given by index.
#[derive(Clone, Debug)]
pub struct IndexedGameNodeDesc {
    pub transform: Transform,
    pub skin_index: Option<usize>,
    pub visual: Option<GameNodeVisual>,
    pub name: Option<String>,
    pub parent_index: Option<usize>,
}

/// A skin as the asset loader describes it, its bones given by index.
#[derive(Clone, Debug)]
pub struct IndexedSkin {
    pub bone_node_indices: Vec<usize>,
    pub bone_inverse_bind_matrices: Vec<[u32; 16]>,
    pub bone_bounding_box_transforms: Vec<Transform>,
}

/// An animation as the asset loader describes it.
#[derive(Debug)]
pub struct IndexedAnimation {
    pub name: Option<String>,
    pub length_seconds: u32,
    pub channels: Vec<IndexedChannel>,
}

/// A channel as the asset loader describes it, its target given by index.
#[derive(Debug)]
pub struct IndexedChannel {
    pub node_index: usize,
    pub property: Property,
    pub interpolation_type: Interpolation,
    pub keyframe_timings: Vec<u32>,
    pub keyframe_values_u8: Vec<u8>,
}

/// Why a scene cannot be built from the loader's description.
#[derive(Clone, Copy, Debug, PartialEq, Eq, Structural)]
pub enum SceneError {
    /// More nodes than 32-bit slot indices can address.
    TooManyNodes,
    /// A parent or channel target index does not fit a 32-bit slot index.
    IndexTooLarge,
    /// A bone of the skin refers to no node.
    BoneOutOfRange { skin_index: usize },
    /// No node carries the skin.
    SkinWithoutNode { skin_index: usize },
}

/// The handle that the loader's index `i` becomes in a new scene.
pub open spec fn initial_id(i: usize) -> GameNodeId {
    GameNodeId(i as u32, 0)
}

/// The node that a new scene makes of `d` at slot `i`.
pub open spec fn node_from_indexed(d: IndexedGameNodeDesc, i: int) -> GameNode {
    GameNode {
        transform: d.transform,
        skin_index: d.skin_index,
        visual: d.visual,
        name: d.name,
        parent_id: match d.parent_index {
            Some(p) => Some(initial_id(p)),
            None => None,
        },
        id: initial_id(i as usize),
    }
}

/// The index of the first node description that carries skin `k`.
pub open spec fn first_node_with_skin(descs: Seq<IndexedGameNodeDesc>, k: usize) -> Option<int>
    decreases descs.len(),
{
    if descs.len() == 0 {
        None
    } else {
        match first_node_with_skin(descs.drop_last(), k) {
            Some(i) => Some(i),
            None => if descs.last().skin_index == Some(k) {
                Some(descs.len() - 1)
            } else {
                None
            },
        }
    }
}

/// What is wrong with skin `k`, if anything.
pub open spec fn skin_error(descs: Seq<IndexedGameNodeDesc>, skin: IndexedSkin, k: usize) -> Option<
    SceneError,
> {
    if exists|b: int|
        0 <= b < skin.bone_node_indices@.len() && #[trigger] skin.bone_node_indices@[b]
            >= descs.len() {
        Some(SceneError::BoneOutOfRange { skin_index: k })
    } else if first_node_with_skin(descs, k) is None {
        Some(SceneError::SkinWithoutNode { skin_index: k })
    } else {
        None
    }
}

/// The error of the first faulty skin among the first `n`.
pub open spec fn first_skin_error(
    descs: Seq<IndexedGameNodeDesc>,
    skins: Seq<IndexedSkin>,
    n: int,
) -> Option<SceneError>
    decreases n,
{
    if n <= 0 {
        None
    } else {
        match first_skin_error(descs, skins, n - 1) {
            Some(e) => Some(e),
            None => skin_error(descs, skins[n - 1], (n - 1) as usize),
        }
    }
}

/// Whether a parent or channel target index does not fit 32 bits.
pub open spec fn has_oversized_index(
    descs: Seq<IndexedGameNodeDesc>,
    animations: Seq<IndexedAnimation>,
) -> bool {
    ||| exists|i: int|
        0 <= i < descs.len() && ((#[trigger] descs[i]).parent_index matches Some(p) && p > u32::MAX)
    ||| exists|a: int, c: int|
        0 <= a < animations.len() && 0 <= c < animations[a].channels@.len()
            && (#[trigger] animations[a].channels@[c]).node_index > u32::MAX
}

/// Why the loader's description makes no scene, checked in this order:
/// the node count, the indices, then each skin in turn.
pub open spec fn scene_error(
    descs: Seq<IndexedGameNodeDesc>,
    skins: Seq<IndexedSkin>,
    animations: Seq<IndexedAnimation>,
) -> Option<SceneError> {
    if descs.len() > u32::MAX {
        Some(SceneError::TooManyNodes)
    } else if has_oversized_index(descs, animations) {
        Some(SceneError::IndexTooLarge)
    } else {
        first_skin_error(descs, skins, skins.len() as int)
    }
}

/// The channel that a new scene makes of `c`.
pub open spec fn channel_from_indexed(c: IndexedChannel) -> Channel {
    Channel {
        node_id: initial_id(c.node_index),
        property: c.property,
        interpolation_type: c.interpolation_type,
        keyframe_timings: c.keyframe_timings,
        keyframe_values_u8: c.keyframe_values_u8,
    }
}

/// Whether `a` is what a new scene makes of `ia`: playing speed 1, paused
/// at time 0, played once.
pub open spec fn animation_made_from(a: Animation, ia: IndexedAnimation) -> bool {
    &&& a.name == ia.name
    &&& a.length_seconds == ia.length_seconds
    &&& a.speed == crate::transform::ONE_BITS
    &&& a.state.current_time_seconds == 0
    &&& !a.state.is_playing
    &&& a.state.loop_type == LoopType::Once
    &&& a.channels@.len() == ia.channels@.len()
    &&& forall|c: int|
        0 <= c < a.channels@.len() ==> #[trigger] a.channels@[c] == channel_from_indexed(
            ia.channels@[c],
        )
}

/// Whether `s` is what a new scene makes of skin `k`, carried by node `node`.
pub open spec fn skin_made_from(s: Skin, is: IndexedSkin, node: int) -> bool {
    &&& s.node_id == initial_id(node as usize)
    &&& s.bone_node_ids@.len() == is.bone_node_indices@.len()
    &&& forall|b: int|
        0 <= b < s.bone_node_ids@.len() ==> #[trigger] s.bone_node_ids@[b] == initial_id(
            is.bone_node_indices@[b],
        )
    &&& s.bone_inverse_bind_matrices == is.bone_inverse_bind_matrices
    &&& s.bone_bounding_box_transforms == is.bone_bounding_box_transforms
}

/// The index of the first description that carries skin `k`.
fn find_first_node_with_skin(descs: &Vec<IndexedGameNodeDesc>, k: usize) -> (r: Option<usize>)
    ensures
        r matches Some(i) ==> i < descs@.len() && first_node_with_skin(descs@, k) == Some(i as int),
        r is None ==> first_node_with_skin(descs@, k) is None,
{
    let mut i: usize = 0;
    while i < descs.len()
        invariant
            i <= descs@.len(),
            first_node_with_skin(descs@.take(i as int), k) is None,
        decreases descs@.len() - i,
    {
        assert(descs@.take(i + 1).drop_last() =~= descs@.take(i as int));
        if descs[i].skin_index == Some(k) {
            assert(first_node_with_skin(descs@.take(i + 1), k) == Some(i as int));
            proof {
                lemma_first_node_with_skin_prefix(descs@, k, i + 1);
            }
            return Some(i);
        }
        i = i + 1;
    }
    assert(descs@.take(i as int) =~= descs@);
    None
}

/// A skin carrier found in a prefix is the one found in the whole.
proof fn lemma_first_node_with_skin_prefix(descs: Seq<IndexedGameNodeDesc>, k: usize, n: int)
    requires
        0 <= n <= descs.len(),
        first_node_with_skin(descs.take(n), k) is Some,
    ensures
        first_node_with_skin(descs, k) == first_node_with_skin(descs.take(n), k),
    decreases descs.len() - n,
{
    if n < descs.len() {
        assert(descs.take(n + 1).drop_last() =~= descs.take(n));
        lemma_first_node_with_skin_prefix(descs, k, n + 1);
    } else {
        assert(descs.take(n) =~= descs);
    }
}

/// What is wrong with skin `k`, if anything.
fn check_skin(descs: &Vec<IndexedGameNodeDesc>, skin: &IndexedSkin, k: usize) -> (r: Option<
    SceneError,
>)
    ensures
        r == skin_error(descs@, *skin, k),
{
    let mut b: usize = 0;
    while b < skin.bone_node_indices.len()
        invariant
            b <= skin.bone_node_indices@.len(),
            forall|j: int| 0 <= j < b ==> #[trigger] skin.bone_node_indices@[j] < descs@.len(),
        decreases skin.bone_node_indices@.len() - b,
    {
        if skin.bone_node_indices[b] >= descs.len() {
            return Some(SceneError::BoneOutOfRange { skin_index: k });
        }
        b = b + 1;
    }
    if find_first_node_with_skin(descs, k).is_none() {
        return Some(SceneError::SkinWithoutNode { skin_index: k });
    }
    None
}

/// Why the loader's description makes no scene, if it does not.
fn find_scene_error(
    descs: &Vec<IndexedGameNodeDesc>,
    skins: &Vec<IndexedSkin>,
    animations: &Vec<IndexedAnimation>,
) -> (r: Option<SceneError>)
    ensures
        r == scene_error(descs@, skins@, animations@),
{
    if descs.len() as u64 > u32::MAX as u64 {
        return Some(SceneError::TooManyNodes);
    }
    let mut i: usize = 0;
    while i < descs.len()
        invariant
            i <= descs@.len(),
            descs@.len() <= u32::MAX,
            forall|j: int|
                0 <= j < i ==> !((#[trigger] descs@[j]).parent_index matches Some(p) && p
                    > u32::MAX),
        decreases descs@.len() - i,
    {
        match descs[i].parent_index {
            Some(p) => if p as u64 > u32::MAX as u64 {
                assert(descs@[i as int].parent_index matches Some(p) && p > u32::MAX);
                assert(has_oversized_index(descs@, animations@));
                return Some(SceneError::IndexTooLarge);
            },
            None => {},
        }
        i = i + 1;
    }
    let mut a: usize = 0;
    while a < animations.len()
        invariant
            a <= animations@.len(),
            descs@.len() <= u32::MAX,
            forall|j: int|
                0 <= j < descs@.len() ==> !((#[trigger] descs@[j]).parent_index matches Some(p)
                    && p > u32::MAX),
            forall|x: int, c: int|
                0 <= x < a && 0 <= c < animations@[x].channels@.len() ==> (
                #[trigger] animations@[x].channels@[c]).node_index <= u32::MAX,
        decreases animations@.len() - a,
    {
        let channels = &animations[a].channels;
        let mut c: usize = 0;
        while c < channels.len()
            invariant
                a < animations@.len(),
                descs@.len() <= u32::MAX,
                channels@ == animations@[a as int].channels@,
                c <= channels@.len(),
                forall|y: int| 0 <= y < c ==> (#[trigger] channels@[y]).node_index <= u32::MAX,
            decreases channels@.len() - c,
        {
            if channels[c].node_index as u64 > u32::MAX as u64 {
                assert(animations@[a as int].channels@[c as int].node_index > u32::MAX);
                assert(has_oversized_index(descs@, animations@));
                return Some(SceneError::IndexTooLarge);
            }
            c = c + 1;
        }
        a = a + 1;
    }
    let mut k: usize = 0;
    while k < skins.len()
        invariant
            k <= skins@.len(),
            !has_oversized_index(descs@, animations@),
            descs@.len() <= u32::MAX,
            first_skin_error(descs@, skins@, k as int) is None,
        decreases skins@.len() - k,
    {
        let e = check_skin(descs, &skins[k], k);
        if e.is_some() {
            assert(first_skin_error(descs@, skins@, k + 1) == e);
            proof {
                lemma_first_skin_error_prefix(descs@, skins@, k + 1);
            }
            return e;
        }
        k = k + 1;
    }
    None
}

/// A skin error found among the first `n` skins is the first one overall.
proof fn lemma_first_skin_error_prefix(
    descs: Seq<IndexedGameNodeDesc>,
    skins: Seq<IndexedSkin>,
    n: int,
)
    requires
        0 <= n <= skins.len(),
        first_skin_error(descs, skins, n) is Some,
    ensures
        first_skin_error(descs, skins, skins.len() as int) == first_skin_error(descs, skins, n),
    decreases skins.len() - n,
{
    if n < skins.len() {
        lemma_first_skin_error_prefix(descs, skins, n + 1);
    }
}

/// With no skin error overall, no skin below `n` has one.
proof fn lemma_no_skin_error_below(
    descs: Seq<IndexedGameNodeDesc>,
    skins: Seq<IndexedSkin>,
    k: int,
    n: int,
)
    requires
        0 <= k < n <= skins.len(),
        first_skin_error(descs, skins, n) is None,
    ensures
        skin_error(descs, skins[k], k as usize) is None,
    decreases n - k,
{
    if k < n - 1 {
        lemma_no_skin_error_below(descs, skins, k, n - 1);
    }
}

impl Scene {
    /// Builds a scene from the loader's description: node `i` gets handle
    /// `(i, 0)`, parents, bones and channel targets given by index become
    /// the handles of generation 0, each skin is carried by the first node
    /// that names it, and each animation starts paused at time 0, played
    /// once at speed 1. Fails, with the first reason in `scene_error`'s
    /// order, when the description cannot make a scene.
    pub fn new(
        nodes_desc: Vec<IndexedGameNodeDesc>,
        indexed_skins: Vec<IndexedSkin>,
        animations: Vec<IndexedAnimation>,
    ) -> (r: Result<Scene, SceneError>)
        ensures
            match r {
                Err(e) => scene_error(nodes_desc@, indexed_skins@, animations@) == Some(e),
                Ok(scene) => {
                    &&& scene_error(nodes_desc@, indexed_skins@, animations@) is None
                    &&& scene.wf()
                    &&& scene@.free_slots.len() == 0
                    &&& scene@.slots.len() == nodes_desc@.len()
                    &&& forall|i: int|
                        0 <= i < nodes_desc@.len() ==> #[trigger] scene@.slots[i] == (
                        Some(node_from_indexed(nodes_desc@[i], i)),
                        0usize,
                    )
                    &&& scene@.skins.len() == indexed_skins@.len()
                    &&& forall|k: int|
                        0 <= k < indexed_skins@.len() ==> skin_made_from(
                            #[trigger] scene@.skins[k],
                            indexed_skins@[k],
                            first_node_with_skin(nodes_desc@, k as usize)->0,
                        )
                    &&& scene@.animations.len() == animations@.len()
                    &&& forall|a: int|
                        0 <= a < animations@.len() ==> animation_made_from(
                            #[trigger] scene@.animations[a],
                            animations@[a],
                        )
                    &&& scene.skeleton_parent_maps() == scene@.all_skeleton_maps()
                },
            },
    {
        match find_scene_error(&nodes_desc, &indexed_skins, &animations) {
            Some(e) => return Err(e),
            None => {},
        }
        let n_nodes = nodes_desc.len();
        let n_skins = indexed_skins.len();
        let mut skin_nodes: Vec<usize> = Vec::new();
        let mut k: usize = 0;
        while k < n_skins
            invariant
                n_skins == indexed_skins@.len(),
                k <= n_skins,
                skin_nodes@.len() == k,
                scene_error(nodes_desc@, indexed_skins@, animations@) is None,
                forall|j: int|
                    0 <= j < k ==> first_node_with_skin(nodes_desc@, j as usize) == Some(
                        #[trigger] skin_nodes@[j] as int,
                    ),
            decreases n_skins - k,
        {
            proof {
                lemma_no_skin_error_below(nodes_desc@, indexed_skins@, k as int, indexed_skins@.len() as int);
            }
            let i = find_first_node_with_skin(&nodes_desc, k).unwrap();
            skin_nodes.push(i);
            k = k + 1;
        }

        let mut scene = Scene {
            nodes: Vec::new(),
            empty_node_indices: Vec::new(),
            global_node_transforms: Vec::new(),
            global_node_bounding_spheres: Vec::new(),
            skins: Vec::new(),
            animations: Vec::new(),
            skeleton_parent_index_maps: HashMap::new(),
        };

        let ghost descs = nodes_desc@;
        let mut rest = into_reversed(nodes_desc);
        let mut i: usize = 0;
        while i < n_nodes
            invariant
                n_nodes == descs.len(),
                n_nodes <= u32::MAX,
                !has_oversized_index(descs, animations@),
                i <= n_nodes,
                rest@.len() == n_nodes - i,
                forall|j: int| 0 <= j < rest@.len() ==> #[trigger] rest@[j] == descs[n_nodes - 1 - j],
                scene.wf(),
                scene@.free_slots.len() == 0,
                scene@.slots.len() == i,
                scene@.skins.len() == 0,
                scene@.animations.len() == 0,
                forall|j: int| 0 <= j < i ==> #[trigger] scene@.slots[j] == (
                    Some(node_from_indexed(descs[j], j)),
                    0usize,
                ),
            decreases n_nodes - i,
        {
            let d = rest.pop().unwrap();
            let parent_id = match d.parent_index {
                Some(p) => Some(GameNodeId(p as u32, 0)),
                None => None,
            };
            proof {
                if d.parent_index is Some {
                    assert(descs[i as int] == d);
                    assert(!(descs[i as int].parent_index matches Some(p) && p > u32::MAX));
                }
            }
            scene.add_node(GameNodeDesc {
                transform: d.transform,
                skin_index: d.skin_index,
                visual: d.visual,
                name: d.name,
                parent_id,
            });
            i = i + 1;
        }

        let ghost iskins = indexed_skins@;
        let mut rest_skins = into_reversed(indexed_skins);
        let mut k: usize = 0;
        while k < n_skins
            invariant
                n_skins == iskins.len(),
                n_nodes == descs.len(),
                n_nodes <= u32::MAX,
                k <= n_skins,
                skin_nodes@.len() == n_skins,
                forall|j: int|
                    0 <= j < n_skins ==> first_node_with_skin(descs, j as usize) == Some(
                        #[trigger] skin_nodes@[j] as int,
                    ),
                scene_error(descs, iskins, animations@) is None,
                rest_skins@.len() == n_skins - k,
                forall|j: int|
                    0 <= j < rest_skins@.len() ==> #[trigger] rest_skins@[j] == iskins[n_skins - 1 - j],
                scene.wf(),
                scene@.free_slots.len() == 0,
                scene@.slots.len() == n_nodes,
                scene@.animations.len() == 0,
                forall|j: int| 0 <= j < n_nodes ==> #[trigger] scene@.slots[j] == (
                    Some(node_from_indexed(descs[j], j)),
                    0usize,
                ),
                scene@.skins.len() == k,
                forall|j: int|
                    0 <= j < k ==> skin_made_from(
                        #[trigger] scene@.skins[j],
                        iskins[j],
                        first_node_with_skin(descs, j as usize)->0,
                    ),
            decreases n_skins - k,
        {
            let is = rest_skins.pop().unwrap();
            assert(is == iskins[k as int]);
            proof {
                lemma_no_skin_error_below(descs, iskins, k as int, n_skins as int);
            }
            let mut bone_node_ids: Vec<GameNodeId> = Vec::new();
            let mut b: usize = 0;
            while b < is.bone_node_indices.len()
                invariant
                    b <= is.bone_node_indices@.len(),
                    skin_error(descs, is, k) is None,
                    n_nodes == descs.len(),
                    bone_node_ids@.len() == b,
                    forall|j: int|
                        0 <= j < b ==> #[trigger] bone_node_ids@[j] == initial_id(
                            is.bone_node_indices@[j],
                        ),
                decreases is.bone_node_indices@.len() - b,
            {
                let bone = is.bone_node_indices[b];
                assert(bone < n_nodes);
                bone_node_ids.push(GameNodeId(bone as u32, 0));
                b = b + 1;
            }
            let node = skin_nodes[k];
            scene.skins.push(Skin {
                node_id: GameNodeId(node as u32, 0),
                bone_node_ids,
                bone_inverse_bind_matrices: is.bone_inverse_bind_matrices,
                bone_bounding_box_transforms: is.bone_bounding_box_transforms,
            });
            k = k + 1;
        }

        let ghost ianims = animations@;
        let n_anims = animations.len();
        let mut rest_anims = into_reversed(animations);
        let mut a: usize = 0;
        while a < n_anims
            invariant
                n_anims == ianims.len(),
                a <= n_anims,
                !has_oversized_index(descs, ianims),
                rest_anims@.len() == n_anims - a,
                forall|j: int|
                    0 <= j < rest_anims@.len() ==> #[trigger] rest_anims@[j] == ianims[n_anims - 1 - j],
                scene.wf(),
                scene@.free_slots.len() == 0,
                scene@.slots.len() == n_nodes,
                forall|j: int| 0 <= j < n_nodes ==> #[trigger] scene@.slots[j] == (
                    Some(node_from_indexed(descs[j], j)),
                    0usize,
                ),
                scene@.skins.len() == n_skins,
                forall|j: int|
                    0 <= j < n_skins ==> skin_made_from(
                        #[trigger] scene@.skins[j],
                        iskins[j],
                        first_node_with_skin(descs, j as usize)->0,
                    ),
                scene@.animations.len() == a,
                forall|j: int|
                    0 <= j < a ==> animation_made_from(#[trigger] scene@.animations[j], ianims[j]),
            decreases n_anims - a,
        {
            let ia = rest_anims.pop().unwrap();
            assert(ia == ianims[a as int]);
            let ghost ichannels = ia.channels@;
            let n_channels = ia.channels.len();
            let mut rest_channels = into_reversed(ia.channels);
            let mut channels: Vec<Channel> = Vec::new();
            let mut c: usize = 0;
            while c < n_channels
                invariant
                    n_channels == ichannels.len(),
                    ichannels == ianims[a as int].channels@,
                    a < n_anims,
                    n_anims == ianims.len(),
                    !has_oversized_index(descs, ianims),
                    c <= n_channels,
                    rest_channels@.len() == n_channels - c,
                    forall|j: int|
                        0 <= j < rest_channels@.len() ==> #[trigger] rest_channels@[j]
                            == ichannels[n_channels - 1 - j],
                    channels@.len() == c,
                    forall|j: int|
                        0 <= j < c ==> #[trigger] channels@[j] == channel_from_indexed(ichannels[j]),
                decreases n_channels - c,
            {
                let ic = rest_channels.pop().unwrap();
                assert(ic == ichannels[c as int]);
                assert(ianims[a as int].channels@[c as int].node_index <= u32::MAX);
                channels.push(Channel {
                    node_id: GameNodeId(ic.node_index as u32, 0),
                    property: ic.property,
                    interpolation_type: ic.interpolation_type,
                    keyframe_timings: ic.keyframe_timings,
                    keyframe_values_u8: ic.keyframe_values_u8,
                });
                c = c + 1;
            }
            scene.animations.push(Animation {
                name: ia.name,
                length_seconds: ia.length_seconds,
                speed: crate::transform::ONE_BITS,
                channels,
                state: AnimationState::default(),
            });
            a = a + 1;
        }
        scene.rebuild_skeleton_parent_index_maps();
        Ok(scene)
    }
}

} // verus!
