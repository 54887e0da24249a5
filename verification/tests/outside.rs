use gpui3d::adapter::{AdapterInfo, Backend, Ui, backends_from_names, chosen_backends, select_adapter};
use gpui3d::bytes::{buffer_bytes, index_bytes};
use gpui3d::memory::{
    DEVICE_LOCAL, HOST_COHERENT, HOST_VISIBLE, LAZILY_ALLOCATED, depth_memory, host_memory, memory_type,
};
use gpui3d::shader::{CUBE_FRAGMENT, CUBE_VERTEX, GlslError, Stage, compile_glsl, compile_words, is_kit_source};
use gpui3d::spirv::{SPIRV_MAGIC, SpirvError, module_bytes, shader_words};

#[test]
fn words_become_bytes_in_memory_order() {
    let words: Vec<u32> = vec![0x0102_0304, 0xa0b0_c0d0];
    let want: Vec<u8> = words.iter().flat_map(|w| w.to_ne_bytes()).collect();
    assert_eq!(buffer_bytes(&words), want);
    let halves: Vec<u16> = vec![0x0102, 0xf00d, 7];
    let want: Vec<u8> = halves.iter().flat_map(|h| h.to_ne_bytes()).collect();
    assert_eq!(index_bytes(&halves), want);
    assert!(buffer_bytes(&Vec::new()).is_empty());
}

#[test]
fn written_module_is_read_back() {
    let words = vec![SPIRV_MAGIC, 0x0001_0000, 28, 5, 0];
    let bytes = module_bytes(&words);
    assert_eq!(bytes[..4], [0x03, 0x02, 0x23, 0x07]);
    assert_eq!(shader_words(&bytes), Ok(words));
}

#[test]
fn module_in_the_other_byte_order_is_read_too() {
    let words = vec![SPIRV_MAGIC, 0x0001_0203];
    let bytes: Vec<u8> = words.iter().flat_map(|w| w.to_be_bytes()).collect();
    assert_eq!(shader_words(&bytes), Ok(words));
}

#[test]
fn broken_modules_are_refused() {
    assert_eq!(shader_words(&[3, 2, 0x23]), Err(SpirvError::PartialWord));
    assert_eq!(shader_words(&[]), Err(SpirvError::MissingMagic));
    assert_eq!(shader_words(&[1, 2, 3, 4]), Err(SpirvError::MissingMagic));
}

#[test]
fn shaders_of_the_kit_compile_to_modules_that_load() {
    let kit = [(CUBE_VERTEX, Stage::Vertex), (CUBE_FRAGMENT, Stage::Fragment)];
    for (source, stage) in kit {
        for debug in [false, true] {
            let bytes = compile_glsl(source, stage, debug).unwrap();
            let words = compile_words(source, stage, debug).unwrap();
            assert_eq!(words[0], SPIRV_MAGIC);
            assert_eq!(shader_words(&bytes), Ok(words.clone()));
            assert_eq!(module_bytes(&words), bytes);
        }
    }
    assert_ne!(
        compile_words(CUBE_VERTEX, Stage::Vertex, false),
        compile_words(CUBE_FRAGMENT, Stage::Fragment, false)
    );
}

#[test]
fn stage_of_a_shader_counts() {
    for debug in [false, true] {
        assert_eq!(compile_glsl(CUBE_FRAGMENT, Stage::Vertex, debug), Err(GlslError::Invalid));
        assert!(compile_words(CUBE_VERTEX, Stage::Fragment, debug).is_err());
    }
}

#[test]
fn names_for_debuggers_make_a_module_longer() {
    let plain = compile_words(CUBE_VERTEX, Stage::Vertex, false).unwrap();
    let debug = compile_words(CUBE_VERTEX, Stage::Vertex, true).unwrap();
    assert!(debug.len() > plain.len());
}

#[test]
fn only_the_kit_is_compiled() {
    assert!(is_kit_source(CUBE_VERTEX) && is_kit_source(CUBE_FRAGMENT));
    assert!(!is_kit_source("") && !is_kit_source("float a[1073741824][2];"));
    assert!(!is_kit_source(&CUBE_VERTEX[1..]));
}

#[test]
fn functions_of_the_kit_have_one_local_variable_at_most() {
    let stages = [naga::ShaderStage::Vertex, naga::ShaderStage::Fragment];
    for source in [CUBE_VERTEX, CUBE_FRAGMENT] {
        for stage in stages {
            let options = naga::front::glsl::Options::from(stage);
            let Ok(module) = naga::front::glsl::Frontend::default().parse(&options, source) else { continue };
            for (_, function) in module.functions.iter() {
                assert!(function.local_variables.len() <= 1);
            }
            for entry in &module.entry_points {
                assert!(entry.function.local_variables.len() <= 1);
            }
        }
    }
}

#[test]
fn backends_are_read_from_names() {
    assert_eq!(backends_from_names(None), wgpu::Backends::all().bits());
    assert_eq!(backends_from_names(Some("")), wgpu::Backends::all().bits());
    assert_eq!(backends_from_names(Some("vulkan")), wgpu::Backends::VULKAN.bits());
    assert_eq!(backends_from_names(Some("metal")), wgpu::Backends::METAL.bits());
    assert_eq!(backends_from_names(Some("dx12")), wgpu::Backends::DX12.bits());
    assert_eq!(backends_from_names(Some("gl")), wgpu::Backends::GL.bits());
    let both = wgpu::Backends::VULKAN | wgpu::Backends::GL;
    assert_eq!(backends_from_names(Some("Vulkan, GL")), both.bits());
    assert_eq!(backends_from_names(Some("glide")), wgpu::Backends::all().bits());
    assert_eq!(chosen_backends(Some(0)), 63);
    assert_eq!(chosen_backends(Some(8)), 8);
    assert_eq!(chosen_backends(None), 63);
}

#[test]
fn native_windows_run_on_their_backend() {
    assert_eq!(Ui::Vulkan.backends(), wgpu::Backends::VULKAN.bits());
    assert_eq!(Ui::Metal.backends(), wgpu::Backends::METAL.bits());
    assert_eq!(Ui::Dx12.backends(), wgpu::Backends::DX12.bits());
    assert_eq!(Ui::OpenGl.backends(), wgpu::Backends::GL.bits());
    assert_eq!(Ui::Wgpu(12).backends(), 12);
    assert!(!Ui::Wgpu(wgpu::Backends::all().bits()).restricts_adapters());
    assert!(Ui::Wgpu(2).restricts_adapters());
    assert!(Ui::Dx12.restricts_adapters());
}

#[test]
fn adapter_of_the_backend_is_chosen_and_a_discrete_one_preferred() {
    let on = |backend: Backend, discrete: bool| AdapterInfo { backend, discrete };
    let infos = vec![
        on(Backend::Gl, true),
        on(Backend::Vulkan, false),
        on(Backend::Dx12, true),
        on(Backend::Vulkan, true),
        on(Backend::Vulkan, true),
    ];
    assert_eq!(select_adapter(&infos, Ui::Vulkan.backends()), Some(3));
    assert_eq!(select_adapter(&infos, Ui::Dx12.backends()), Some(2));
    assert_eq!(select_adapter(&infos, Ui::Metal.backends()), None);
    assert_eq!(select_adapter(&infos, 63), Some(0));
    assert_eq!(select_adapter(&infos[1..2].to_vec(), Ui::Vulkan.backends()), Some(0));
    assert_eq!(select_adapter(&Vec::new(), 63), None);
    let first = vec![on(Backend::Metal, false), on(Backend::Vulkan, true)];
    assert_eq!(select_adapter(&first, 2 | 4), Some(0));
    let rest = vec![on(Backend::Noop, false), on(Backend::BrowserWebGpu, false)];
    assert_eq!(select_adapter(&rest, wgpu::Backends::BROWSER_WEBGPU.bits()), Some(1));
    assert_eq!(select_adapter(&rest, wgpu::Backends::NOOP.bits()), Some(0));
}

#[test]
fn memory_flags_are_those_of_the_driver() {
    assert_eq!(DEVICE_LOCAL, ash::vk::MemoryPropertyFlags::DEVICE_LOCAL.as_raw());
    assert_eq!(HOST_VISIBLE, ash::vk::MemoryPropertyFlags::HOST_VISIBLE.as_raw());
    assert_eq!(HOST_COHERENT, ash::vk::MemoryPropertyFlags::HOST_COHERENT.as_raw());
    assert_eq!(LAZILY_ALLOCATED, ash::vk::MemoryPropertyFlags::LAZILY_ALLOCATED.as_raw());
}

#[test]
fn first_suiting_memory_type_is_taken() {
    let types = vec![DEVICE_LOCAL, HOST_VISIBLE, HOST_VISIBLE | HOST_COHERENT, DEVICE_LOCAL | LAZILY_ALLOCATED];
    assert_eq!(memory_type(&types, 0b1111, HOST_VISIBLE), Some(1));
    assert_eq!(memory_type(&types, 0b1101, HOST_VISIBLE), Some(2));
    assert_eq!(memory_type(&types, 0b0001, HOST_VISIBLE), None);
    assert_eq!(host_memory(&types, 0b1111), Some(2));
    assert_eq!(host_memory(&types, 0b1011), None);
    assert_eq!(depth_memory(&types, 0b1111), Some(3));
    assert_eq!(depth_memory(&types, 0b0111), Some(0));
    assert_eq!(depth_memory(&types, 0b0110), None);
}
