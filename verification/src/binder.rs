//! Buffer and bind-group planning: the wiring contract between host memory
//! and the kernels.
//!
//! Every GPU buffer is planned here as its full word contents plus usage
//! flags, and every binding declares its minimum binding size explicitly so
//! that a layout mismatch surfaces when the plan is built, not as corrupted
//! pixels at draw time.  Two independent groups are planned: group 0 carries
//! the per-pixel I/O (coordinate table in, result buffer out), group 1 the
//! scene and configuration.  The split lets either side be rebuilt without
//! touching the other.

use vstd::prelude::*;

verus! {

use crate::config::{
    spec_result_bytes_per_pixel,
    result_bytes_per_pixel,
    Config,
    TransferStrategy,
};
use crate::entity::{Panel, Sphere, PANEL_RECORD_WORDS, SPHERE_RECORD_WORDS};

/// How a planned buffer may be used, mirroring the GPU API's usage flags.
#[derive(Clone, Copy, Debug, PartialEq, Eq)]
pub struct BufferUsage {
    pub copy_src: bool,
    pub copy_dst: bool,
    pub storage: bool,
    pub uniform: bool,
    pub vertex: bool,
}

/// A planned GPU buffer: its complete contents at upload time, as 32-bit
/// words, and its usage.  The byte image of the buffer is the little-endian
/// serialization of the words (see [`crate::words::words_le_bytes`]).
#[derive(Clone, Debug, PartialEq, Eq)]
pub struct BufferPlan {
    pub contents_words: Vec<u32>,
    pub usage: BufferUsage,
}

impl BufferPlan {
    /// The buffer's length in bytes: four per word.
    pub open spec fn byte_len(self) -> int {
        4 * (self.contents_words@.len() as int)
    }
}

/// What a binding slot holds and how the kernel may access it.
#[derive(Clone, Copy, Debug, PartialEq, Eq)]
pub enum BindingKind {
    Uniform,
    Storage { read_only: bool },
}

/// One planned binding: the slot index, the access kind, the declared
/// minimum binding size in bytes, and the buffer bound to the slot.
#[derive(Clone, Debug, PartialEq, Eq)]
pub struct BufferBinding {
    pub binding: u32,
    pub kind: BindingKind,
    pub min_binding_size: u64,
    pub buffer: BufferPlan,
}

impl BufferBinding {
    /// The declared minimum size is positive and within the bound buffer:
    /// a zero-sized binding is invalid, and a declared minimum beyond the
    /// buffer's end would be a silent truncation.
    pub open spec fn wf(self) -> bool {
        0 < self.min_binding_size <= self.buffer.byte_len()
    }
}

/// A planned bind group: its bindings, one per slot, in slot order.
#[derive(Clone, Debug, PartialEq, Eq)]
pub struct BindGroupPlan {
    pub bindings: Vec<BufferBinding>,
}

impl BindGroupPlan {
    /// Every binding is well-formed and sits at the slot equal to its index.
    pub open spec fn wf(self) -> bool {
        forall|i: int|
            0 <= i < self.bindings@.len() ==> (#[trigger] self.bindings@[i]).wf()
                && self.bindings@[i].binding == i
    }
}

/// A fatal construction-time failure: the requested wiring could not match
/// the kernel contract.
#[derive(Clone, Copy, Debug, PartialEq, Eq)]
pub enum BindError {
    /// A binding declared a minimum size of zero.
    ZeroBindingSize,
    /// A binding declared a minimum size beyond its buffer's length.
    BindingSizeExceedsBuffer,
    /// A configuration count disagrees with the entity vector's length.
    CountMismatch,
}

/// Validates and builds one binding.  Succeeds exactly when the declared
/// minimum size is positive and no larger than the buffer.
pub fn bind_buffer(
    binding: u32,
    kind: BindingKind,
    min_binding_size: u64,
    buffer: BufferPlan,
) -> (r: Result<BufferBinding, BindError>)
    ensures
        r is Ok <==> 0 < min_binding_size <= buffer.byte_len(),
        match r {
            Ok(b) => {
                &&& b.binding == binding
                &&& b.kind == kind
                &&& b.min_binding_size == min_binding_size
                &&& b.buffer == buffer
            },
            Err(e) => e == (
            if min_binding_size == 0 {
                BindError::ZeroBindingSize
            } else {
                BindError::BindingSizeExceedsBuffer
            }),
        },
{
    if min_binding_size == 0 {
        return Err(BindError::ZeroBindingSize);
    }
    if (min_binding_size as u128) > (buffer.contents_words.len() as u128) * 4 {
        return Err(BindError::BindingSizeExceedsBuffer);
    }
    Ok(BufferBinding { binding, kind, min_binding_size, buffer })
}

/// A sequence of `n` zero words.
pub open spec fn zero_words(n: nat) -> Seq<u32> {
    Seq::new(n, |i: int| 0u32)
}

/// The concatenated records of a sphere vector, in order.
pub open spec fn sphere_vec_words(s: Seq<Sphere>) -> Seq<u32>
    decreases s.len(),
{
    if s.len() == 0 {
        Seq::empty()
    } else {
        sphere_vec_words(s.drop_last()) + s.last().record()
    }
}

/// Eight words per sphere.
pub proof fn lemma_sphere_vec_words_len(s: Seq<Sphere>)
    ensures
        sphere_vec_words(s).len() == SPHERE_RECORD_WORDS * s.len(),
    decreases s.len(),
{
    if s.len() > 0 {
        lemma_sphere_vec_words_len(s.drop_last());
    }
}

/// The concatenated records of a panel vector, in order.
pub open spec fn panel_vec_words(s: Seq<Panel>) -> Seq<u32>
    decreases s.len(),
{
    if s.len() == 0 {
        Seq::empty()
    } else {
        panel_vec_words(s.drop_last()) + s.last().record()
    }
}

/// Sixteen words per panel.
pub proof fn lemma_panel_vec_words_len(s: Seq<Panel>)
    ensures
        panel_vec_words(s).len() == PANEL_RECORD_WORDS * s.len(),
    decreases s.len(),
{
    if s.len() > 0 {
        lemma_panel_vec_words_len(s.drop_last());
    }
}

/// The words a sphere buffer holds: the encoded vector, or one zero record
/// when the vector is empty, since a zero-sized binding is invalid.
pub open spec fn padded_sphere_words(s: Seq<Sphere>) -> Seq<u32> {
    if s.len() == 0 {
        zero_words(SPHERE_RECORD_WORDS as nat)
    } else {
        sphere_vec_words(s)
    }
}

/// The words a panel buffer holds, padded like the sphere buffer.
pub open spec fn padded_panel_words(s: Seq<Panel>) -> Seq<u32> {
    if s.len() == 0 {
        zero_words(PANEL_RECORD_WORDS as nat)
    } else {
        panel_vec_words(s)
    }
}

/// Encodes a sphere vector into its buffer words: eight per sphere, or one
/// zero record for an empty vector.
pub fn encode_sphere_buffer(v: &Vec<Sphere>) -> (r: Vec<u32>)
    ensures
        r@ == padded_sphere_words(v@),
        v@.len() == 0 ==> r@.len() == SPHERE_RECORD_WORDS,
        v@.len() > 0 ==> r@.len() == SPHERE_RECORD_WORDS * v@.len(),
{
    let mut r: Vec<u32> = Vec::new();
    if v.len() == 0 {
        let mut k: usize = 0;
        while k < SPHERE_RECORD_WORDS
            invariant
                k <= SPHERE_RECORD_WORDS,
                r@ =~= zero_words(k as nat),
            decreases SPHERE_RECORD_WORDS - k,
        {
            r.push(0);
            proof {
                assert(r@ =~= zero_words((k + 1) as nat));
            }
            k = k + 1;
        }
        return r;
    }
    let mut i: usize = 0;
    while i < v.len()
        invariant
            i <= v@.len(),
            r@ == sphere_vec_words(v@.take(i as int)),
            r@.len() == SPHERE_RECORD_WORDS * i,
        decreases v@.len() - i,
    {
        let mut rec = v[i].raw_data();
        r.append(&mut rec);
        proof {
            assert(v@.take(i + 1).drop_last() =~= v@.take(i as int));
            assert(v@.take(i + 1).last() == v@[i as int]);
        }
        i = i + 1;
    }
    proof {
        assert(v@.take(v@.len() as int) =~= v@);
    }
    r
}

/// Encodes a panel vector into its buffer words: sixteen per panel, or one
/// zero record for an empty vector.
pub fn encode_panel_buffer(v: &Vec<Panel>) -> (r: Vec<u32>)
    ensures
        r@ == padded_panel_words(v@),
        v@.len() == 0 ==> r@.len() == PANEL_RECORD_WORDS,
        v@.len() > 0 ==> r@.len() == PANEL_RECORD_WORDS * v@.len(),
{
    let mut r: Vec<u32> = Vec::new();
    if v.len() == 0 {
        let mut k: usize = 0;
        while k < PANEL_RECORD_WORDS
            invariant
                k <= PANEL_RECORD_WORDS,
                r@ =~= zero_words(k as nat),
            decreases PANEL_RECORD_WORDS - k,
        {
            r.push(0);
            proof {
                assert(r@ =~= zero_words((k + 1) as nat));
            }
            k = k + 1;
        }
        return r;
    }
    let mut i: usize = 0;
    while i < v.len()
        invariant
            i <= v@.len(),
            r@ == panel_vec_words(v@.take(i as int)),
            r@.len() == PANEL_RECORD_WORDS * i,
        decreases v@.len() - i,
    {
        let mut rec = v[i].raw_data();
        r.append(&mut rec);
        proof {
            assert(v@.take(i + 1).drop_last() =~= v@.take(i as int));
            assert(v@.take(i + 1).last() == v@[i as int]);
        }
        i = i + 1;
    }
    proof {
        assert(v@.take(v@.len() as int) =~= v@);
    }
    r
}

/// Usage of the three entity buffers: uniforms, copyable out.
pub open spec fn entity_usage() -> BufferUsage {
    BufferUsage { copy_src: true, copy_dst: false, storage: false, uniform: true, vertex: false }
}

/// Usage of the configuration buffer: read-only storage, copyable out.
pub open spec fn config_usage() -> BufferUsage {
    BufferUsage { copy_src: true, copy_dst: false, storage: true, uniform: false, vertex: false }
}

/// The per-pixel I/O group: the coordinate table read-only at slot 0, the
/// result buffer read-write at slot 1, with minimum binding sizes declared
/// from the pixel count and the transfer strategy's result format.
pub open spec fn is_io_group(
    g: BindGroupPlan,
    input: BufferPlan,
    result: BufferPlan,
    pixel_count: u32,
    strategy: TransferStrategy,
) -> bool {
    &&& g.bindings@.len() == 2
    &&& g.bindings@[0].binding == 0
    &&& g.bindings@[0].kind == (BindingKind::Storage { read_only: true })
    &&& g.bindings@[0].min_binding_size == 8 * pixel_count
    &&& g.bindings@[0].buffer == input
    &&& g.bindings@[1].binding == 1
    &&& g.bindings@[1].kind == (BindingKind::Storage { read_only: false })
    &&& g.bindings@[1].min_binding_size == spec_result_bytes_per_pixel(strategy) * pixel_count
    &&& g.bindings@[1].buffer == result
}

/// The scene group: sphere, wall and light buffers as uniforms at slots
/// 0 to 2, each holding the padded encoding of its vector with the minimum
/// binding size equal to the encoded byte length, and the configuration
/// record as read-only storage at slot 3.
pub open spec fn is_scene_group(
    g: BindGroupPlan,
    spheres: Seq<Sphere>,
    panels: Seq<Panel>,
    lights: Seq<Panel>,
    config: Config,
) -> bool {
    &&& g.bindings@.len() == 4
    &&& g.bindings@[0].binding == 0
    &&& g.bindings@[0].kind == BindingKind::Uniform
    &&& g.bindings@[0].buffer.contents_words@ == padded_sphere_words(spheres)
    &&& g.bindings@[0].buffer.usage == entity_usage()
    &&& g.bindings@[0].min_binding_size == g.bindings@[0].buffer.byte_len()
    &&& g.bindings@[1].binding == 1
    &&& g.bindings@[1].kind == BindingKind::Uniform
    &&& g.bindings@[1].buffer.contents_words@ == padded_panel_words(panels)
    &&& g.bindings@[1].buffer.usage == entity_usage()
    &&& g.bindings@[1].min_binding_size == g.bindings@[1].buffer.byte_len()
    &&& g.bindings@[2].binding == 2
    &&& g.bindings@[2].kind == BindingKind::Uniform
    &&& g.bindings@[2].buffer.contents_words@ == padded_panel_words(lights)
    &&& g.bindings@[2].buffer.usage == entity_usage()
    &&& g.bindings@[2].min_binding_size == g.bindings@[2].buffer.byte_len()
    &&& g.bindings@[3].binding == 3
    &&& g.bindings@[3].kind == (BindingKind::Storage { read_only: true })
    &&& g.bindings@[3].buffer.contents_words@ == config.record()
    &&& g.bindings@[3].buffer.usage == config_usage()
    &&& g.bindings@[3].min_binding_size == g.bindings@[3].buffer.byte_len()
}

/// Builds the per-pixel I/O group from already-planned input and result
/// buffers.  Succeeds exactly when the pixel count is positive and both
/// buffers are at least as long as their declared minimum binding sizes.
pub fn build_group0(
    input: BufferPlan,
    result: BufferPlan,
    pixel_count: u32,
    strategy: TransferStrategy,
) -> (r: Result<BindGroupPlan, BindError>)
    ensures
        r is Ok <==> (0 < pixel_count && 8 * pixel_count <= input.byte_len()
            && spec_result_bytes_per_pixel(strategy) * pixel_count <= result.byte_len()),
        match r {
            Ok(g) => is_io_group(g, input, result, pixel_count, strategy) && g.wf(),
            Err(e) => e == (
            if pixel_count == 0 {
                BindError::ZeroBindingSize
            } else {
                BindError::BindingSizeExceedsBuffer
            }),
        },
{
    let input_min: u64 = 8 * (pixel_count as u64);
    let bpp: u32 = result_bytes_per_pixel(strategy);
    proof {
        assert((bpp as int) * (pixel_count as int) <= 12 * 0xFFFF_FFFF) by (nonlinear_arith)
            requires
                bpp <= 12,
                pixel_count <= 0xFFFF_FFFF,
        ;
    }
    let result_min: u64 = (bpp as u64) * (pixel_count as u64);
    let b0 = match bind_buffer(0, BindingKind::Storage { read_only: true }, input_min, input) {
        Ok(b) => b,
        Err(e) => {
            return Err(e);
        },
    };
    let b1 = match bind_buffer(1, BindingKind::Storage { read_only: false }, result_min, result) {
        Ok(b) => b,
        Err(e) => {
            return Err(e);
        },
    };
    let mut bindings: Vec<BufferBinding> = Vec::new();
    bindings.push(b0);
    bindings.push(b1);
    Ok(BindGroupPlan { bindings })
}

/// Builds one binding whose declared minimum is known to fit its buffer.
fn bind_fitted(binding: u32, kind: BindingKind, buffer: BufferPlan) -> (b: BufferBinding)
    requires
        0 < buffer.byte_len() <= u64::MAX,
    ensures
        b.binding == binding,
        b.kind == kind,
        b.min_binding_size == buffer.byte_len(),
        b.buffer == buffer,
        b.wf(),
{
    let min: u64 = (buffer.contents_words.len() as u64) * 4;
    BufferBinding { binding, kind, min_binding_size: min, buffer }
}

/// Builds the scene group, validating that every configuration count equals
/// the length of the entity vector whose encoding it gates.  Succeeds
/// exactly when the counts match; a mismatch is the data-contract violation
/// this system must catch at construction time.
pub fn build_group1(
    spheres: &Vec<Sphere>,
    panels: &Vec<Panel>,
    lights: &Vec<Panel>,
    config: &Config,
) -> (r: Result<BindGroupPlan, BindError>)
    ensures
        r is Ok <==> config.counts_match(spheres@, panels@, lights@),
        match r {
            Ok(g) => is_scene_group(g, spheres@, panels@, lights@, *config) && g.wf(),
            Err(e) => e == BindError::CountMismatch,
        },
{
    let counts_ok = (spheres.len() as u64 == config.sphere_count as u64) && (panels.len() as u64
        == config.panel_count as u64) && (lights.len() as u64 == config.light_count as u64);
    if !counts_ok {
        return Err(BindError::CountMismatch);
    }
    proof {
        lemma_sphere_vec_words_len(spheres@);
        lemma_panel_vec_words_len(panels@);
        lemma_panel_vec_words_len(lights@);
    }
    let sphere_buffer = BufferPlan {
        contents_words: encode_sphere_buffer(spheres),
        usage: BufferUsage {
            copy_src: true,
            copy_dst: false,
            storage: false,
            uniform: true,
            vertex: false,
        },
    };
    let panel_buffer = BufferPlan {
        contents_words: encode_panel_buffer(panels),
        usage: BufferUsage {
            copy_src: true,
            copy_dst: false,
            storage: false,
            uniform: true,
            vertex: false,
        },
    };
    let light_buffer = BufferPlan {
        contents_words: encode_panel_buffer(lights),
        usage: BufferUsage {
            copy_src: true,
            copy_dst: false,
            storage: false,
            uniform: true,
            vertex: false,
        },
    };
    let config_buffer = BufferPlan {
        contents_words: config.raw_data(),
        usage: BufferUsage {
            copy_src: true,
            copy_dst: false,
            storage: true,
            uniform: false,
            vertex: false,
        },
    };
    let b0 = bind_fitted(0, BindingKind::Uniform, sphere_buffer);
    let b1 = bind_fitted(1, BindingKind::Uniform, panel_buffer);
    let b2 = bind_fitted(2, BindingKind::Uniform, light_buffer);
    let b3 = bind_fitted(3, BindingKind::Storage { read_only: true }, config_buffer);
    let mut bindings: Vec<BufferBinding> = Vec::new();
    bindings.push(b0);
    bindings.push(b1);
    bindings.push(b2);
    bindings.push(b3);
    Ok(BindGroupPlan { bindings })
}

/// The two planned bind groups, held together so the scene side can be
/// rebuilt while the per-pixel I/O side provably stays as it was.
#[derive(Clone, Debug, PartialEq, Eq)]
pub struct Binder {
    pub group0: BindGroupPlan,
    pub group1: BindGroupPlan,
}

impl Binder {
    /// Pairs the two groups.
    pub fn new(group0: BindGroupPlan, group1: BindGroupPlan) -> (b: Binder)
        ensures
            b.group0 == group0,
            b.group1 == group1,
    {
        Binder { group0, group1 }
    }

    /// Rebuilds the scene group from a new scene and configuration.  The
    /// per-pixel I/O group — its bound buffers and their contents — is left
    /// exactly as it was, whether or not the rebuild succeeds.
    pub fn rebuild_group1(
        &mut self,
        spheres: &Vec<Sphere>,
        panels: &Vec<Panel>,
        lights: &Vec<Panel>,
        config: &Config,
    ) -> (r: Result<(), BindError>)
        ensures
            final(self).group0 == old(self).group0,
            r is Ok <==> config.counts_match(spheres@, panels@, lights@),
            r is Ok ==> is_scene_group(final(self).group1, spheres@, panels@, lights@, *config)
                && final(self).group1.wf(),
            r is Err ==> final(self).group1 == old(self).group1 && r == Err::<(), BindError>(
                BindError::CountMismatch,
            ),
    {
        match build_group1(spheres, panels, lights, config) {
            Ok(g) => {
                self.group1 = g;
                Ok(())
            },
            Err(e) => Err(e),
        }
    }
}

} // verus!
