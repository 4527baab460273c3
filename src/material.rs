//! One generated material per unique mesh, assigned once the scene has
//! finished loading.
//!
//! Meshes, materials and textures are addressed by index: mesh `i` gets
//! material `i`, and a material refers to textures by their index in the
//! three pools.

use vstd::prelude::*;
use crate::hash::{hash_noise_bits, noise_bits_spec};
use crate::mip::lemma_mip_chain_2048_narrow;
use crate::mip::lemma_mip_chain_2048_wide;
use crate::texture::{generate_texture, is_generated, GeneratedTexture};

verus! {

/// Unique meshes of the benchmark scene once it has fully loaded.
pub const UNIQUE_MESH_QTY: usize = 24182;

/// Mesh instances of the benchmark scene once it has fully loaded.
pub const MESH_INSTANCE_QTY: usize = 35689;

/// Edge length of every generated texture.
pub const TEXTURE_EDGE: u32 = 2048;

/// Seed offset of the normal-map pool.
pub const NORMAL_SEED_OFFSET: u32 = 1024;

/// Seed offset of the roughness pool.
pub const ROUGHNESS_SEED_OFFSET: u32 = 2048;

/// The material of one unique mesh. The base colour is kept as the three raw
/// hash words of its channels; each texture is an index into its pool.
#[derive(Clone, Copy, Debug, PartialEq, Eq, Structural)]
pub struct MeshMaterial {
    pub red_bits: u32,
    pub green_bits: u32,
    pub blue_bits: u32,
    pub base_color_texture: Option<usize>,
    pub normal_texture: Option<usize>,
    pub roughness_texture: Option<usize>,
}

/// Round-robin slot of mesh `i` in a pool of `pool_len` textures; none when
/// the pool is empty.
pub open spec fn pool_slot(i: nat, pool_len: nat) -> Option<usize> {
    if pool_len == 0 {
        None
    } else {
        Some((i % pool_len) as usize)
    }
}

/// The material that mesh `i` receives with pools of `pool_len` textures.
pub open spec fn material_spec(i: nat, pool_len: nat) -> MeshMaterial {
    MeshMaterial {
        red_bits: noise_bits_spec(i as u32, 0, 0),
        green_bits: noise_bits_spec(i as u32, 0, 1),
        blue_bits: noise_bits_spec(i as u32, 0, 2),
        base_color_texture: pool_slot(i, pool_len),
        normal_texture: pool_slot(i, pool_len),
        roughness_texture: pool_slot(i, pool_len),
    }
}

/// Seed of texture `j` of a pool whose seeds start at `offset`.
pub open spec fn pool_seed(j: int, offset: u32) -> u32 {
    ((j + offset) % 0x1_0000_0000) as u32
}

/// `pool` holds `count` textures of `TEXTURE_EDGE`, texture `j` seeded with
/// `j + offset`.
pub open spec fn is_pool(pool: Seq<GeneratedTexture>, count: nat, narrow_format: bool, offset: u32) -> bool {
    &&& pool.len() == count
    &&& forall|j: int|
        0 <= j < pool.len() ==> is_generated(
            #[trigger] pool[j],
            TEXTURE_EDGE,
            narrow_format,
            pool_seed(j, offset),
        )
}

/// The three texture pools; texture `j` of each belongs to texture set `j`.
#[derive(Clone, Debug)]
pub struct TexturePools {
    pub base_color: Vec<GeneratedTexture>,
    pub normal: Vec<GeneratedTexture>,
    pub roughness: Vec<GeneratedTexture>,
}

/// The result of one assignment.
#[derive(Clone, Debug)]
pub struct MaterialAssignment {
    pub pools: TexturePools,
    /// Material `i` belongs to mesh `i`.
    pub materials: Vec<MeshMaterial>,
    /// For each instance, the material applied to it: that of its mesh, or
    /// none for an instance whose mesh is not among the counted ones.
    pub instance_materials: Vec<Option<usize>>,
}

/// The material an instance of mesh `m` receives when `mesh_count` meshes
/// are loaded.
pub open spec fn instance_material_spec(m: usize, mesh_count: nat) -> Option<usize> {
    if m < mesh_count {
        Some(m)
    } else {
        None
    }
}

/// `a` is the full assignment over `mesh_count` meshes and the instances whose
/// meshes are `instance_meshes`, with `texture_count` texture sets.
pub open spec fn is_assignment(
    a: MaterialAssignment,
    mesh_count: nat,
    instance_meshes: Seq<usize>,
    texture_count: nat,
) -> bool {
    &&& is_pool(a.pools.base_color@, texture_count, false, 0)
    &&& is_pool(a.pools.normal@, texture_count, false, NORMAL_SEED_OFFSET)
    &&& is_pool(a.pools.roughness@, texture_count, true, ROUGHNESS_SEED_OFFSET)
    &&& a.materials@.len() == mesh_count
    &&& forall|i: int|
        0 <= i < mesh_count ==> #[trigger] a.materials@[i] == material_spec(i as nat, texture_count)
    &&& a.instance_materials@.len() == instance_meshes.len()
    &&& forall|k: int|
        0 <= k < instance_meshes.len() ==> #[trigger] a.instance_materials@[k]
            == instance_material_spec(instance_meshes[k], mesh_count)
}

fn build_pool(count: u32, narrow_format: bool, offset: u32) -> (pool: Vec<GeneratedTexture>)
    ensures
        is_pool(pool@, count as nat, narrow_format, offset),
{
    proof {
        lemma_mip_chain_2048_wide();
        lemma_mip_chain_2048_narrow();
    }
    let mut pool: Vec<GeneratedTexture> = Vec::new();
    let mut j: u32 = 0;
    while j < count
        invariant
            j <= count,
            is_pool(pool@, j as nat, narrow_format, offset),
            crate::texture::texture_len(TEXTURE_EDGE, narrow_format) <= u32::MAX,
        decreases count - j,
    {
        let t = generate_texture(TEXTURE_EDGE, narrow_format, j.wrapping_add(offset));
        pool.push(t);
        j = j + 1;
    }
    pool
}

/// Materials are assigned at most once: after the assignment has run, no
/// call runs it again whatever counts it sees; and while either observed
/// count is below its target, no call runs it.
pub proof fn lemma_gate_one_shot(g: MaterialAssigner, mesh_count: nat, instance_count: nat)
    ensures
        g.done ==> !g.fires(mesh_count, instance_count),
        mesh_count < g.mesh_target ==> !g.fires(mesh_count, instance_count),
        instance_count < g.instance_target ==> !g.fires(mesh_count, instance_count),
{
}

/// Builds the material of mesh `i`.
pub fn mesh_material(i: u32, pool_len: u32) -> (m: MeshMaterial)
    ensures
        m == material_spec(i as nat, pool_len as nat),
{
    let slot: Option<usize> = if pool_len == 0 {
        None
    } else {
        Some((i % pool_len) as usize)
    };
    MeshMaterial {
        red_bits: hash_noise_bits(i, 0, 0),
        green_bits: hash_noise_bits(i, 0, 1),
        blue_bits: hash_noise_bits(i, 0, 2),
        base_color_texture: slot,
        normal_texture: slot,
        roughness_texture: slot,
    }
}

/// The one-shot readiness gate in front of the material assignment, with its
/// configuration.
#[derive(Clone, Copy, Debug, PartialEq, Eq, Structural)]
pub struct MaterialAssigner {
    /// Whether random materials are generated at all.
    pub enabled: bool,
    /// Texture sets per pool; zero attaches no textures.
    pub texture_count: u32,
    /// Unique meshes expected once loading is complete.
    pub mesh_target: usize,
    /// Mesh instances expected once loading is complete.
    pub instance_target: usize,
    /// Set once the assignment has run.
    pub done: bool,
}

impl MaterialAssigner {
    /// Mesh ordinals are hashed as 32-bit words.
    pub open spec fn wf(&self) -> bool {
        self.mesh_target <= u32::MAX
    }

    /// Whether a call seeing these counts runs the assignment.
    pub open spec fn fires(&self, mesh_count: nat, instance_count: nat) -> bool {
        &&& self.enabled
        &&& !self.done
        &&& mesh_count == self.mesh_target
        &&& instance_count == self.instance_target
    }

    /// A gate that has not fired yet.
    pub fn new(enabled: bool, texture_count: u32, mesh_target: usize, instance_target: usize) -> (r: Self)
        requires
            mesh_target <= u32::MAX,
        ensures
            r.wf(),
            r == (MaterialAssigner { enabled, texture_count, mesh_target, instance_target, done: false }),
    {
        MaterialAssigner { enabled, texture_count, mesh_target, instance_target, done: false }
    }

    /// Assigns materials if enabled, not yet done, and the observed counts
    /// equal both targets; `instance_meshes[k]` is the mesh ordinal of
    /// instance `k`. Returns the assignment when it ran, after which later
    /// calls do nothing; otherwise returns `None` and changes nothing.
    pub fn assign(&mut self, mesh_count: usize, instance_meshes: &Vec<usize>) -> (r: Option<MaterialAssignment>)
        requires
            old(self).wf(),
        ensures
            final(self).wf(),
            old(self).fires(mesh_count as nat, instance_meshes@.len()) ==> {
                &&& r is Some
                &&& is_assignment(
                    r->Some_0,
                    mesh_count as nat,
                    instance_meshes@,
                    old(self).texture_count as nat,
                )
                &&& *final(self) == (MaterialAssigner { done: true, ..*old(self) })
            },
            !old(self).fires(mesh_count as nat, instance_meshes@.len()) ==> {
                &&& r is None
                &&& *final(self) == *old(self)
            },
    {
        if !self.enabled || self.done || mesh_count != self.mesh_target
            || instance_meshes.len() != self.instance_target {
            return None;
        }
        let count = self.texture_count;
        let base_color = build_pool(count, false, 0);
        let normal = build_pool(count, false, NORMAL_SEED_OFFSET);
        let roughness = build_pool(count, true, ROUGHNESS_SEED_OFFSET);

        let mut materials: Vec<MeshMaterial> = Vec::new();
        let mut i: usize = 0;
        while i < mesh_count
            invariant
                i <= mesh_count,
                mesh_count <= u32::MAX,
                materials@.len() == i,
                forall|j: int|
                    0 <= j < i ==> #[trigger] materials@[j] == material_spec(j as nat, count as nat),
            decreases mesh_count - i,
        {
            materials.push(mesh_material(i as u32, count));
            i = i + 1;
        }

        let mut instance_materials: Vec<Option<usize>> = Vec::new();
        let mut k: usize = 0;
        while k < instance_meshes.len()
            invariant
                k <= instance_meshes@.len(),
                instance_materials@.len() == k,
                forall|j: int|
                    0 <= j < k ==> #[trigger] instance_materials@[j] == instance_material_spec(
                        instance_meshes@[j],
                        mesh_count as nat,
                    ),
            decreases instance_meshes@.len() - k,
        {
            let m = instance_meshes[k];
            instance_materials.push(if m < mesh_count { Some(m) } else { None });
            k = k + 1;
        }

        self.done = true;
        Some(MaterialAssignment {
            pools: TexturePools { base_color, normal, roughness },
            materials,
            instance_materials,
        })
    }
}

} // verus!
