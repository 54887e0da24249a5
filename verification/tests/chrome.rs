use ash::vk::{AccessFlags as Access, PipelineStageFlags as Stage};
use gpui3d::adapter::Backend;
use gpui3d::chrome::{
    NativeApi, StorageMode, demo_fps_label, depth_storage, editor_fps_label, engine_label, refresh_rate, refusal,
    render_rate, surface_size, wgpu_refusal,
};
use gpui3d::dx12::{BufferView, RENDER_TARGET, SAMPLED, buffer_view, frame_transitions, root_constants};
use gpui3d::gesture::{Button, Drag, Point, PointerEvent};
use gpui3d::opengl::{
    SetupStep, clip_control, context_attributes, function_address, is_error_message, setup_steps, trim_log, wants_debug,
};
use gpui3d::pipeline::cube_pipeline;
use gpui3d::scalar::Scalar;
use gpui3d::vulkan::{ImageLayout, StoreOp, render_pass};

fn point(x: f32, y: f32) -> Point {
    Point { x: Scalar::from_bits(x.to_bits()), y: Scalar::from_bits(y.to_bits()) }
}

#[test]
fn drag_turns_by_stretches_that_join() {
    let mut drag = Drag::new();
    let (a, b, c) = (point(1.0, 2.0), point(4.0, 2.5), point(9.0, -3.0));
    let left = Some(Button::Left);
    assert_eq!(drag.follow(PointerEvent::Move(a, left)), None);
    assert_eq!(drag.follow(PointerEvent::Press(a)), None);
    assert_eq!(drag.follow(PointerEvent::Move(b, left)), Some((a, b)));
    assert_eq!(drag.follow(PointerEvent::Move(c, Some(Button::Other))), None);
    assert_eq!(drag.follow(PointerEvent::Move(c, left)), Some((b, c)));
    assert_eq!(drag.follow(PointerEvent::Release), None);
    assert_eq!(drag.follow(PointerEvent::Move(a, left)), None);
}

#[test]
fn drag_ends_when_no_button_is_held() {
    let mut drag = Drag::new();
    drag.follow(PointerEvent::Press(point(0.0, 0.0)));
    assert_eq!(drag.follow(PointerEvent::Move(point(1.0, 1.0), None)), None);
    assert_eq!(drag.follow(PointerEvent::Move(point(2.0, 2.0), Some(Button::Left))), None);
}

#[test]
fn engines_refuse_windows_of_other_apis() {
    assert_eq!(refusal(NativeApi::Metal, Some(NativeApi::Metal)), None);
    assert_eq!(refusal(NativeApi::Metal, None), Some("GPUI ne tourne pas sur Metal"));
    assert_eq!(
        refusal(NativeApi::Vulkan, Some(NativeApi::Metal)),
        Some("GPUI ne tourne pas sur Vulkan (MoltenVK absent sur macOS ?)")
    );
    assert_eq!(refusal(NativeApi::Dx12, None), Some("GPUI ne tourne pas sur D3D12"));
    assert_eq!(refusal(NativeApi::OpenGl, None), Some("GPUI ne tourne pas sur OpenGL"));
    assert_eq!(refusal(NativeApi::OpenGl, Some(NativeApi::OpenGl)), None);
    assert_eq!(wgpu_refusal(true), None);
    assert_eq!(wgpu_refusal(false), Some("l'UI de GPUI ne tourne pas sur wgpu"));
}

#[test]
fn window_terms() {
    assert_eq!(surface_size(0, 0), (1, 1));
    assert_eq!(surface_size(1280, 800), (1280, 800));
    assert_eq!(refresh_rate(None), 60_000);
    assert_eq!(refresh_rate(Some(143_981)), 143_981);
    assert_eq!((render_rate(0), render_rate(999), render_rate(120_000)), (1_000, 1_000, 120_000));
    assert_eq!(depth_storage(true), StorageMode::Memoryless);
    assert_eq!(depth_storage(false), StorageMode::Private);
}

#[test]
fn labels() {
    assert_eq!(engine_label("wgpu", Backend::Vulkan), "moteur : wgpu · Vulkan");
    assert_eq!(engine_label("wgpu", Backend::Gl), "moteur : wgpu · OpenGL");
    assert_eq!(engine_label("Metal natif", Backend::Metal), "moteur : Metal natif · Metal");
    assert_eq!(engine_label("D3D12 natif", Backend::Dx12), "moteur : D3D12 natif · D3D12");
    assert_eq!(engine_label("", Backend::BrowserWebGpu), "moteur :  · WebGPU");
    assert_eq!(engine_label("x", Backend::Noop), "moteur : x · aucune API");
    assert_eq!(demo_fps_label(None), "— fps");
    assert_eq!(demo_fps_label(Some("60")), "60 fps");
    assert_eq!(editor_fps_label(None), "3D : — fps");
    assert_eq!(editor_fps_label(Some("119")), "3D : 119 fps");
}

#[test]
fn masks_of_the_render_pass_are_those_of_the_driver() {
    let pass = render_pass();
    assert_eq!(pass.entry.before_stages, (Stage::FRAGMENT_SHADER | Stage::LATE_FRAGMENT_TESTS).as_raw());
    assert_eq!(pass.entry.after_stages, (Stage::COLOR_ATTACHMENT_OUTPUT | Stage::EARLY_FRAGMENT_TESTS).as_raw());
    assert_eq!(pass.entry.before_access, Access::DEPTH_STENCIL_ATTACHMENT_WRITE.as_raw());
    assert_eq!(
        pass.entry.after_access,
        (Access::COLOR_ATTACHMENT_WRITE | Access::DEPTH_STENCIL_ATTACHMENT_WRITE).as_raw()
    );
    assert_eq!(pass.leave.before_stages, Stage::COLOR_ATTACHMENT_OUTPUT.as_raw());
    assert_eq!(pass.leave.after_stages, Stage::FRAGMENT_SHADER.as_raw());
    assert_eq!(pass.leave.before_access, Access::COLOR_ATTACHMENT_WRITE.as_raw());
    assert_eq!(pass.leave.after_access, Access::SHADER_READ.as_raw());
    assert_eq!((pass.color.initial, pass.color.last), (ImageLayout::Undefined, ImageLayout::ShaderReadOnly));
    assert_eq!((pass.color.store, pass.depth.store), (StoreOp::Store, StoreOp::DontCare));
}

#[test]
fn back_buffer_of_direct3d_returns_as_it_came() {
    let (before, after) = frame_transitions();
    assert_eq!((before.before, before.after), (SAMPLED, RENDER_TARGET));
    assert_eq!((after.before, after.after), (RENDER_TARGET, SAMPLED));
    assert_eq!((RENDER_TARGET, SAMPLED), (4, 0x80 | 0x40));
    assert_eq!(buffer_view(24, 24), BufferView { size: 576, stride: 24 });
    assert_eq!(buffer_view(36, 2), BufferView { size: 72, stride: 2 });
    assert_eq!(buffer_view(9, 0), BufferView { size: 0, stride: 0 });
    assert_eq!(root_constants(&cube_pipeline()), 16);
}

#[test]
fn opengl_context_and_functions() {
    assert_eq!(context_attributes(true), [0x2091, 4, 0x2092, 5, 0x9126, 1, 0x2094, 1, 0]);
    assert_eq!(context_attributes(false)[7], 0);
    for failure in [Some(0), Some(1), Some(2), Some(3), Some(usize::MAX), None] {
        assert_eq!(function_address(failure, Some(4096)), 4096);
        assert_eq!(function_address(failure, None), 0);
    }
    assert_eq!(function_address(Some(4), Some(4096)), 4);
    assert!(is_error_message(0x824c) && !is_error_message(0x8251));
}

#[test]
fn opengl_context_is_made_under_the_lock() {
    assert_eq!(clip_control(), (0x8ca2, 0x935f));
    assert_eq!(
        setup_steps(),
        [
            SetupStep::LockQueue,
            SetupStep::CreateContext,
            SetupStep::UnlockQueue,
            SetupStep::LoadFunctions,
            SetupStep::ReportMessages,
            SetupStep::ClipControl(0x8ca2, 0x935f),
            SetupStep::CreateProgram,
            SetupStep::CreateMesh,
            SetupStep::CheckErrors,
        ]
    );
}

#[test]
fn opengl_debugging_is_asked_for_by_a_one() {
    assert!(wants_debug(true, None) && wants_debug(true, Some("0")) && wants_debug(false, Some("1")));
    assert!(!wants_debug(false, None) && !wants_debug(false, Some("")) && !wants_debug(false, Some("11")));
}

#[test]
fn log_ends_before_its_zeros() {
    assert_eq!(trim_log(&b"0:1: error\n\0\0\0".to_vec()), b"0:1: error\n");
    assert_eq!(trim_log(&b"a\0b\0".to_vec()), b"a\0b");
    assert!(trim_log(&vec![0; 16]).is_empty());
    assert!(trim_log(&Vec::new()).is_empty());
}
