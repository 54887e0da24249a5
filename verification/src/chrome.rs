//! What the window says, and on which terms it starts its engine.
use crate::adapter::Backend;
use vstd::prelude::*;

verus! {

/// A graphics API that an engine can draw with by itself.
#[derive(Clone, Copy, Debug, PartialEq, Eq, Structural)]
pub enum NativeApi {
    Metal,
    Vulkan,
    Dx12,
    OpenGl,
}

/// Why an engine cannot run on a window that is not on its API.
pub open spec fn complaint(api: NativeApi) -> Seq<char> {
    match api {
        NativeApi::Metal => "GPUI ne tourne pas sur Metal"@,
        NativeApi::Vulkan => "GPUI ne tourne pas sur Vulkan (MoltenVK absent sur macOS ?)"@,
        NativeApi::Dx12 => "GPUI ne tourne pas sur D3D12"@,
        NativeApi::OpenGl => "GPUI ne tourne pas sur OpenGL"@,
    }
}

/// Whether an engine can run on the window's device; if not, why.
pub fn refusal(engine: NativeApi, device: Option<NativeApi>) -> (r: Option<&'static str>)
    ensures
        match r {
            Some(text) => device != Some(engine) && text@ == complaint(engine),
            None => device == Some(engine),
        },
{
    let same = match device {
        Some(api) => api == engine,
        None => false,
    };
    if same {
        return None;
    }
    let text: &'static str = match engine {
        NativeApi::Metal => "GPUI ne tourne pas sur Metal",
        NativeApi::Vulkan => "GPUI ne tourne pas sur Vulkan (MoltenVK absent sur macOS ?)",
        NativeApi::Dx12 => "GPUI ne tourne pas sur D3D12",
        NativeApi::OpenGl => "GPUI ne tourne pas sur OpenGL",
    };
    Some(text)
}

/// Why the engine that draws by wgpu cannot run on a window that wgpu does not render; nothing if
/// it does.
pub fn wgpu_refusal(on_wgpu: bool) -> (r: Option<&'static str>)
    ensures
        match r {
            Some(text) => !on_wgpu && text@ == "l'UI de GPUI ne tourne pas sur wgpu"@,
            None => on_wgpu,
        },
{
    if on_wgpu {
        None
    } else {
        Some("l'UI de GPUI ne tourne pas sur wgpu")
    }
}

/// The size of the surface for a window: at least one pixel each way.
pub fn surface_size(width: u32, height: u32) -> (r: (u32, u32))
    ensures
        r.0 == if width == 0 { 1u32 } else { width },
        r.1 == if height == 0 { 1u32 } else { height },
{
    let w: u32 = if width == 0 {
        1
    } else {
        width
    };
    let h: u32 = if height == 0 {
        1
    } else {
        height
    };
    (w, h)
}

/// The refresh rate of the screen in thousandths of a hertz: 60 hertz where it is not known.
pub fn refresh_rate(display: Option<u32>) -> (r: u32)
    ensures
        r == match display {
            Some(rate) => rate,
            None => 60_000,
        },
{
    match display {
        Some(rate) => rate,
        None => 60_000,
    }
}

/// The rate to render at, in thousandths of a hertz: that of the screen, and no less than one
/// hertz.
pub fn render_rate(refresh: u32) -> (r: u32)
    ensures
        r == if refresh < 1_000 {
            1_000
        } else {
            refresh
        },
{
    if refresh < 1_000 {
        1_000
    } else {
        refresh
    }
}

/// Where a depth buffer of the Metal engine lives.
#[derive(Clone, Copy, Debug, PartialEq, Eq, Structural)]
pub enum StorageMode {
    /// In the GPU's tiles only.
    Memoryless,
    /// In memory of the GPU.
    Private,
}

/// Where a depth buffer lives: GPUs of Apple's own family have tiles for it.
pub fn depth_storage(apple_family: bool) -> (r: StorageMode)
    ensures
        r == if apple_family {
            StorageMode::Memoryless
        } else {
            StorageMode::Private
        },
{
    if apple_family {
        StorageMode::Memoryless
    } else {
        StorageMode::Private
    }
}

/// What a graphics API is called.
pub open spec fn api_name(device: Backend) -> Seq<char> {
    match device {
        Backend::Noop => "aucune API"@,
        Backend::Vulkan => "Vulkan"@,
        Backend::Metal => "Metal"@,
        Backend::Dx12 => "D3D12"@,
        Backend::Gl => "OpenGL"@,
        Backend::BrowserWebGpu => "WebGPU"@,
    }
}

/// The label that names the engine, and the API that the device really runs on.
pub fn engine_label(engine: &str, device: Backend) -> (r: String)
    ensures
        r@ == "moteur : "@ + engine@ + " · "@ + api_name(device),
{
    let mut text = String::from_str("moteur : ");
    text.append(engine);
    text.append(" · ");
    text.append(
        match device {
            Backend::Noop => "aucune API",
            Backend::Vulkan => "Vulkan",
            Backend::Metal => "Metal",
            Backend::Dx12 => "D3D12",
            Backend::Gl => "OpenGL",
            Backend::BrowserWebGpu => "WebGPU",
        },
    );
    text
}

/// The label of the demo's frame rate, given the rate as text, if it was measured yet.
pub fn demo_fps_label(rate: Option<&str>) -> (r: String)
    ensures
        match rate {
            Some(rate) => r@ == rate@ + " fps"@,
            None => r@ == "— fps"@,
        },
{
    match rate {
        Some(rate) => {
            let mut text = String::from_str(rate);
            text.append(" fps");
            text
        },
        None => String::from_str("— fps"),
    }
}

/// The label of the editor's frame rate, given the rate as text, if it was measured yet.
pub fn editor_fps_label(rate: Option<&str>) -> (r: String)
    ensures
        match rate {
            Some(rate) => r@ == "3D : "@ + rate@ + " fps"@,
            None => r@ == "3D : — fps"@,
        },
{
    match rate {
        Some(rate) => {
            let mut text = String::from_str("3D : ");
            text.append(rate);
            text.append(" fps");
            text
        },
        None => String::from_str("3D : — fps"),
    }
}

/// An engine runs on a device of its own API and on no other, so that of all engines just one runs
/// on a device that has an API; those that are refused are told so by a text of their own.
pub proof fn law_engine_runs_on_own_api(
    a: NativeApi,
    b: NativeApi,
    device: Option<NativeApi>,
    r: Option<&'static str>,
    s: Option<&'static str>,
)
    requires
        call_ensures(refusal, (a, device), r),
        call_ensures(refusal, (b, device), s),
    ensures
        r is None <==> device == Some(a),
        r is None && s is None ==> a == b,
        device is None ==> r is Some,
        r matches Some(x) ==> (s matches Some(y) ==> (x@ == y@ <==> a == b)),
        r matches Some(x) ==> x@ == match a {
            NativeApi::Metal => "GPUI ne tourne pas sur Metal"@,
            NativeApi::Vulkan => "GPUI ne tourne pas sur Vulkan (MoltenVK absent sur macOS ?)"@,
            NativeApi::Dx12 => "GPUI ne tourne pas sur D3D12"@,
            NativeApi::OpenGl => "GPUI ne tourne pas sur OpenGL"@,
        },
{
    reveal_strlit("GPUI ne tourne pas sur Metal");
    reveal_strlit("GPUI ne tourne pas sur Vulkan (MoltenVK absent sur macOS ?)");
    reveal_strlit("GPUI ne tourne pas sur D3D12");
    reveal_strlit("GPUI ne tourne pas sur OpenGL");
    assert(complaint(NativeApi::Metal)[23] == 'M' && complaint(NativeApi::Vulkan)[23] == 'V');
    assert(complaint(NativeApi::Dx12)[23] == 'D' && complaint(NativeApi::OpenGl)[23] == 'O');
}

/// The engine that draws by wgpu runs exactly if wgpu renders the window.
pub proof fn law_wgpu_engine_needs_wgpu(on_wgpu: bool, r: Option<&'static str>)
    requires
        call_ensures(wgpu_refusal, (on_wgpu,), r),
    ensures
        r is None <==> on_wgpu,
        r matches Some(text) ==> text@ == "l'UI de GPUI ne tourne pas sur wgpu"@,
{
}

/// A surface has the size of its window, but for a side of no length, which counts as one pixel.
pub proof fn law_surface_has_window_size(width: u32, height: u32, r: (u32, u32))
    requires
        call_ensures(surface_size, (width, height), r),
    ensures
        r.0 >= 1 && r.1 >= 1,
        width >= 1 ==> r.0 == width,
        height >= 1 ==> r.1 == height,
        width == 0 ==> r.0 == 1,
        height == 0 ==> r.1 == 1,
{
}

/// Frames are rendered at the rate of the screen, as long as that is a hertz or more, and at 60
/// hertz where it is not known.
pub proof fn law_rate_is_that_of_screen(display: Option<u32>, refresh: u32, r: u32)
    requires
        call_ensures(refresh_rate, (display,), refresh),
        call_ensures(render_rate, (refresh,), r),
    ensures
        display is None ==> r == 60_000,
        display matches Some(rate) ==> refresh == rate && (rate >= 1_000 ==> r == rate) && (rate
            < 1_000 ==> r == 1_000),
{
}

/// A depth buffer lives in the tiles of GPUs of Apple's own family, and in memory of others.
pub proof fn law_tiles_hold_depth(apple_family: bool, r: StorageMode)
    requires
        call_ensures(depth_storage, (apple_family,), r),
    ensures
        r is Memoryless <==> apple_family,
        r is Private <==> !apple_family,
{
}

/// Every API has a name of its own.
pub proof fn law_api_names_differ(a: Backend, b: Backend)
    ensures
        api_name(a) == api_name(b) <==> a == b,
{
    reveal_strlit("aucune API");
    reveal_strlit("Vulkan");
    reveal_strlit("Metal");
    reveal_strlit("D3D12");
    reveal_strlit("OpenGL");
    reveal_strlit("WebGPU");
    assert(api_name(Backend::Vulkan)[0] == 'V' && api_name(Backend::Metal)[0] == 'M');
    assert(api_name(Backend::Dx12)[0] == 'D' && api_name(Backend::Gl)[0] == 'O');
    assert(api_name(Backend::BrowserWebGpu)[0] == 'W' && api_name(Backend::Noop)[0] == 'a');
}

/// The label shows the engine's name and then that of the API that the device runs on: for one
/// engine, labels are the same exactly if the devices run on the same API.
pub proof fn law_label_shows_engine_and_api(
    engine: &str,
    a: Backend,
    b: Backend,
    r: String,
    s: String,
)
    requires
        call_ensures(engine_label, (engine, a), r),
        call_ensures(engine_label, (engine, b), s),
    ensures
        r@.take(9) == "moteur : "@,
        r@.subrange(9, 9 + engine@.len() as int) == engine@,
        r@.subrange(9 + engine@.len() as int, 12 + engine@.len() as int) == " · "@,
        r@.skip(12 + engine@.len() as int) == match a {
            Backend::Noop => "aucune API"@,
            Backend::Vulkan => "Vulkan"@,
            Backend::Metal => "Metal"@,
            Backend::Dx12 => "D3D12"@,
            Backend::Gl => "OpenGL"@,
            Backend::BrowserWebGpu => "WebGPU"@,
        },
        r@ == s@ <==> a == b,
{
    reveal_strlit("moteur : ");
    reveal_strlit(" · ");
    let n = engine@.len() as int;
    assert(r@.take(9) =~= "moteur : "@);
    assert(r@.subrange(9, 9 + n) =~= engine@);
    assert(r@.subrange(9 + n, 12 + n) =~= " · "@);
    assert(r@.skip(12 + n) =~= api_name(a));
    assert(s@.skip(12 + n) =~= api_name(b));
    law_api_names_differ(a, b);
}

/// The labels of the frame rate show the rate where there is one, and a dash until then.
pub proof fn law_rate_labels_show_rate(rate: Option<&str>, demo: String, editor: String)
    requires
        call_ensures(demo_fps_label, (rate,), demo),
        call_ensures(editor_fps_label, (rate,), editor),
    ensures
        rate is None ==> demo@ == "— fps"@ && editor@ == "3D : — fps"@,
        rate matches Some(text) ==> {
            &&& demo@.take(text@.len() as int) == text@
            &&& demo@.skip(text@.len() as int) == " fps"@
            &&& editor@.take(5) == "3D : "@
            &&& editor@.skip(5) == demo@
        },
{
    reveal_strlit("3D : ");
    reveal_strlit(" fps");
    if let Some(text) = rate {
        assert(demo@.take(text@.len() as int) =~= text@);
        assert(demo@.skip(text@.len() as int) =~= " fps"@);
        assert(editor@.take(5) =~= "3D : "@);
        assert(editor@.skip(5) =~= demo@);
    }
}

} // verus!
