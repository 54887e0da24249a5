//! The Direct3D 12 engine: resource states, and what it binds.
use crate::pipeline::PipelineDesc;
use vstd::prelude::*;

verus! {

/// `D3D12_RESOURCE_STATE_RENDER_TARGET`
pub const RENDER_TARGET: u32 = 0x4;

/// A buffer that the compositor samples:
/// `D3D12_RESOURCE_STATE_PIXEL_SHADER_RESOURCE | D3D12_RESOURCE_STATE_NON_PIXEL_SHADER_RESOURCE`.
pub const SAMPLED: u32 = 0xc0;

/// A change of a resource's state.
#[derive(Clone, Copy, Debug, PartialEq, Eq, Structural)]
pub struct Transition {
    pub before: u32,
    pub after: u32,
}

/// The state after a transition, which only a resource in the transition's first state can make.
pub open spec fn made(state: Option<u32>, transition: Transition) -> Option<u32> {
    if state == Some(transition.before) {
        Some(transition.after)
    } else {
        None
    }
}

/// The transitions of the back buffer around the drawing of a frame: before it and after it.
pub open spec fn around_frame() -> (Transition, Transition) {
    (
        Transition { before: SAMPLED, after: RENDER_TARGET },
        Transition { before: RENDER_TARGET, after: SAMPLED },
    )
}

/// The transitions of the back buffer around the drawing of a frame.
pub fn frame_transitions() -> (r: (Transition, Transition))
    ensures
        r == around_frame(),
{
    (
        Transition { before: SAMPLED, after: RENDER_TARGET },
        Transition { before: RENDER_TARGET, after: SAMPLED },
    )
}

/// The back buffer comes and goes in the state in which the compositor samples it, and is a render
/// target in between.
pub proof fn law_buffer_returns_as_it_came()
    ensures
        made(Some(SAMPLED), around_frame().0) == Some(RENDER_TARGET),
        made(made(Some(SAMPLED), around_frame().0), around_frame().1) == Some(SAMPLED),
{
}

/// A buffer as the input assembler reads it.
#[derive(Clone, Copy, Debug, PartialEq, Eq, Structural)]
pub struct BufferView {
    pub size: u32,
    pub stride: u32,
}

/// The view of a buffer of `count` items of `stride` bytes.
pub fn buffer_view(count: usize, stride: u32) -> (r: BufferView)
    requires
        count * stride <= u32::MAX,
    ensures
        r.size == count * stride,
        r.stride == stride,
{
    proof {
        assert(stride > 0 ==> count <= count * stride) by (nonlinear_arith);
        assert(stride == 0 ==> count * stride == 0) by (nonlinear_arith);
    }
    if stride == 0 {
        return BufferView { size: 0, stride };
    }
    BufferView { size: count as u32 * stride, stride }
}

/// How many 32-bit root constants the uniforms of a pipeline take.
pub fn root_constants(desc: &PipelineDesc) -> (r: u32)
    ensures
        r == desc.uniform_size / 4,
{
    desc.uniform_size / 4
}

/// The back buffer goes from what the compositor samples to a render target before the frame, and
/// back after it, by the numbers that Direct3D gives these states: the two transitions are each
/// other's reverse.
pub proof fn law_transitions_are_reverse(r: (Transition, Transition))
    requires
        call_ensures(frame_transitions, (), r),
    ensures
        r.0.before == r.1.after,
        r.0.after == r.1.before,
        r.0.before == 0x40 + 0x80,
        r.0.after == 4,
{
}

/// The view of a buffer covers all its items: one item more makes it one stride longer, and none at
/// all leave it empty.
pub proof fn law_view_covers_items(count: usize, stride: u32, r: BufferView, s: BufferView)
    requires
        (count + 1) * stride <= u32::MAX,
        count < usize::MAX,
        call_ensures(buffer_view, (count, stride), r),
        call_ensures(buffer_view, ((count + 1) as usize, stride), s),
    ensures
        r.stride == stride,
        s.size == r.size + stride,
        count == 0 ==> r.size == 0,
{
    assert((count + 1) * stride == count * stride + stride) by (nonlinear_arith);
    assert(count == 0 ==> count * stride == 0) by (nonlinear_arith);
}

/// The root constants are as many words as the uniforms take: those of the demo's matrix are
/// sixteen, and those of the editor's uniforms twenty-four.
pub proof fn law_constants_hold_uniforms(desc: PipelineDesc, r: u32)
    requires
        call_ensures(root_constants, (&desc,), r),
    ensures
        desc.uniform_size % 4 == 0 ==> 4 * r == desc.uniform_size,
        desc.uniform_size == 64 ==> r == 16,
        desc.uniform_size == 96 ==> r == 24,
{
}

} // verus!
