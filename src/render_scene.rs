//! Rendering attributes that meshes carry, and the default asset path.
use vstd::prelude::*;

verus! {

/// How a mesh's alpha channel is treated.
#[derive(Clone, Copy, Debug, PartialEq, Eq, Structural)]
pub enum AlphaMode {
    Opaque,
    Mask,
}

/// How a mesh's vertices are assembled.
#[derive(Clone, Copy, Debug, PartialEq, Eq, Structural)]
pub enum PrimitiveMode {
    Triangles,
}

/// The model file that the demo scene loads.
pub fn get_gltf_path() -> (r: &'static str)
    ensures
        r@ == "../glTF-Sample-Models/2.0/BrainStem/glTF/BrainStem.gltf"@,
{
    proof {
        reveal_strlit("../glTF-Sample-Models/2.0/BrainStem/glTF/BrainStem.gltf");
    }
    "../glTF-Sample-Models/2.0/BrainStem/glTF/BrainStem.gltf"
}

} // verus!
