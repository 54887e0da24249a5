//! The render pass of the Vulkan engine, and how it is ordered with the compositor.
use crate::pipeline::TexelFormat;
use vstd::prelude::*;

verus! {

/// How the texels of an image are arranged.
#[derive(Clone, Copy, Debug, PartialEq, Eq, Structural)]
pub enum ImageLayout {
    /// In any way; what they hold may be lost.
    Undefined,
    ColorAttachment,
    DepthAttachment,
    /// To be sampled, as the compositor does.
    ShaderReadOnly,
}

/// What becomes of an attachment when the pass ends.
#[derive(Clone, Copy, Debug, PartialEq, Eq, Structural)]
pub enum StoreOp {
    Store,
    DontCare,
}

/// An image that the pass draws into. It is cleared when the pass starts.
#[derive(Clone, Copy, Debug, PartialEq, Eq, Structural)]
pub struct Attachment {
    pub format: TexelFormat,
    pub store: StoreOp,
    pub initial: ImageLayout,
    pub during: ImageLayout,
    pub last: ImageLayout,
}

/// What has to be over before something else may start, as Vulkan's stage and access masks.
#[derive(Clone, Copy, Debug, PartialEq, Eq, Structural)]
pub struct Dependency {
    pub before_stages: u32,
    pub after_stages: u32,
    pub before_access: u32,
    pub after_access: u32,
}

/// The render pass: its two attachments, what comes before it and what comes after it.
#[derive(Clone, Copy, Debug, PartialEq, Eq, Structural)]
pub struct RenderPassDesc {
    pub color: Attachment,
    pub depth: Attachment,
    pub entry: Dependency,
    pub leave: Dependency,
}

/// `VK_PIPELINE_STAGE_FRAGMENT_SHADER_BIT`
pub const STAGE_FRAGMENT_SHADER: u32 = 0x80;

/// `VK_PIPELINE_STAGE_EARLY_FRAGMENT_TESTS_BIT`
pub const STAGE_EARLY_FRAGMENT_TESTS: u32 = 0x100;

/// `VK_PIPELINE_STAGE_LATE_FRAGMENT_TESTS_BIT`
pub const STAGE_LATE_FRAGMENT_TESTS: u32 = 0x200;

/// `VK_PIPELINE_STAGE_COLOR_ATTACHMENT_OUTPUT_BIT`
pub const STAGE_COLOR_ATTACHMENT_OUTPUT: u32 = 0x400;

/// `VK_ACCESS_SHADER_READ_BIT`
pub const ACCESS_SHADER_READ: u32 = 0x20;

/// `VK_ACCESS_COLOR_ATTACHMENT_WRITE_BIT`
pub const ACCESS_COLOR_ATTACHMENT_WRITE: u32 = 0x100;

/// `VK_ACCESS_DEPTH_STENCIL_ATTACHMENT_WRITE_BIT`
pub const ACCESS_DEPTH_ATTACHMENT_WRITE: u32 = 0x400;

/// The render pass. The buffer comes and goes as the compositor samples it. Before the pass, the
/// compositor has read this buffer and the frame before has written its depth; after it, the
/// compositor samples what was drawn.
pub open spec fn cube_render_pass() -> RenderPassDesc {
    RenderPassDesc {
        color: Attachment {
            format: TexelFormat::Bgra8UnormSrgb,
            store: StoreOp::Store,
            initial: ImageLayout::Undefined,
            during: ImageLayout::ColorAttachment,
            last: ImageLayout::ShaderReadOnly,
        },
        depth: Attachment {
            format: TexelFormat::Depth32Float,
            store: StoreOp::DontCare,
            initial: ImageLayout::Undefined,
            during: ImageLayout::DepthAttachment,
            last: ImageLayout::DepthAttachment,
        },
        entry: Dependency {
            before_stages: STAGE_FRAGMENT_SHADER | STAGE_LATE_FRAGMENT_TESTS,
            after_stages: STAGE_COLOR_ATTACHMENT_OUTPUT | STAGE_EARLY_FRAGMENT_TESTS,
            before_access: ACCESS_DEPTH_ATTACHMENT_WRITE,
            after_access: ACCESS_COLOR_ATTACHMENT_WRITE | ACCESS_DEPTH_ATTACHMENT_WRITE,
        },
        leave: Dependency {
            before_stages: STAGE_COLOR_ATTACHMENT_OUTPUT,
            after_stages: STAGE_FRAGMENT_SHADER,
            before_access: ACCESS_COLOR_ATTACHMENT_WRITE,
            after_access: ACCESS_SHADER_READ,
        },
    }
}

/// The render pass of the engine.
pub fn render_pass() -> (r: RenderPassDesc)
    ensures
        r == cube_render_pass(),
{
    RenderPassDesc {
        color: Attachment {
            format: TexelFormat::Bgra8UnormSrgb,
            store: StoreOp::Store,
            initial: ImageLayout::Undefined,
            during: ImageLayout::ColorAttachment,
            last: ImageLayout::ShaderReadOnly,
        },
        depth: Attachment {
            format: TexelFormat::Depth32Float,
            store: StoreOp::DontCare,
            initial: ImageLayout::Undefined,
            during: ImageLayout::DepthAttachment,
            last: ImageLayout::DepthAttachment,
        },
        entry: Dependency {
            before_stages: STAGE_FRAGMENT_SHADER | STAGE_LATE_FRAGMENT_TESTS,
            after_stages: STAGE_COLOR_ATTACHMENT_OUTPUT | STAGE_EARLY_FRAGMENT_TESTS,
            before_access: ACCESS_DEPTH_ATTACHMENT_WRITE,
            after_access: ACCESS_COLOR_ATTACHMENT_WRITE | ACCESS_DEPTH_ATTACHMENT_WRITE,
        },
        leave: Dependency {
            before_stages: STAGE_COLOR_ATTACHMENT_OUTPUT,
            after_stages: STAGE_FRAGMENT_SHADER,
            before_access: ACCESS_COLOR_ATTACHMENT_WRITE,
            after_access: ACCESS_SHADER_READ,
        },
    }
}

/// The passes and the compositor take turns at a buffer: a pass leaves the buffer to be sampled,
/// the stage that samples is over before the next pass writes, and the stage that writes is over
/// before the next sampling.
pub proof fn law_pass_and_compositor_take_turns()
    ensures
        ({
            let pass = cube_render_pass();
            &&& pass.color.last == ImageLayout::ShaderReadOnly
            &&& pass.color.store == StoreOp::Store
            &&& pass.entry.before_stages & pass.leave.after_stages == pass.leave.after_stages
            &&& pass.entry.after_stages & pass.leave.before_stages == pass.leave.before_stages
            &&& pass.entry.after_access & pass.leave.before_access == pass.leave.before_access
        }),
{
    assert((0x80u32 | 0x200u32) & 0x80u32 == 0x80u32) by (bit_vector);
    assert((0x400u32 | 0x100u32) & 0x400u32 == 0x400u32) by (bit_vector);
    assert((0x100u32 | 0x400u32) & 0x100u32 == 0x100u32) by (bit_vector);
}

/// The pass stores what it draws and not the depth, and takes each attachment through layouts of
/// its own kind: the buffer ends up to be sampled, and what either held before the pass may be
/// lost. The order with what comes before and after is given by Vulkan's own bits.
pub proof fn law_pass_keeps_colour_only(pass: RenderPassDesc)
    requires
        call_ensures(render_pass, (), pass),
    ensures
        pass.color.format is Bgra8UnormSrgb && pass.depth.format is Depth32Float,
        pass.color.store is Store && pass.depth.store is DontCare,
        pass.color.initial is Undefined && pass.depth.initial is Undefined,
        pass.color.during is ColorAttachment && pass.depth.during is DepthAttachment,
        pass.color.last is ShaderReadOnly && pass.depth.last is DepthAttachment,
        pass.entry.before_stages == 0x280 && pass.entry.after_stages == 0x500,
        pass.entry.before_access == 0x400 && pass.entry.after_access == 0x500,
        pass.leave.before_stages == 0x400 && pass.leave.after_stages == 0x80,
        pass.leave.before_access == 0x100 && pass.leave.after_access == 0x20,
{
    assert(0x80u32 | 0x200u32 == 0x280u32 && 0x400u32 | 0x100u32 == 0x500u32 && 0x100u32 | 0x400u32
        == 0x500u32) by (bit_vector);
}

} // verus!
