//! Shaders written in GLSL, compiled to the bytes of a SPIR-V module.
use crate::bytes::word_bytes;
#[allow(unused_imports)]
use crate::bytes::{law_bytes_spell_words, spelled};
#[allow(unused_imports)]
use crate::spirv::law_read_gives_back_written;
use crate::spirv::{SPIRV_MAGIC, module_bytes, shader_words};
use crate::text::same_text;
use vstd::prelude::*;

verus! {

/// The stage that a shader runs in.
#[derive(Clone, Copy, Debug, PartialEq, Eq, Structural)]
pub enum Stage {
    Vertex,
    Fragment,
}

/// Why a shader was not compiled.
#[derive(Clone, Copy, Debug, PartialEq, Eq, Structural)]
pub enum GlslError {
    /// The source is not GLSL.
    Syntax,
    /// The source parses, but the shader is not valid.
    Invalid,
    /// The shader is valid, but cannot be written as SPIR-V.
    Unwritable,
}

/// The vertex shader of the cube. The vertical axis of Vulkan points down, and the shader turns it
/// over.
pub const CUBE_VERTEX: &'static str = "#version 450
layout(location = 0) in vec3 position;
layout(location = 1) in vec3 color;
layout(location = 0) out vec3 tint;
layout(push_constant) uniform Push { mat4 mvp; } push;
void main() {
    tint = color;
    gl_Position = push.mvp * vec4(position, 1.0);
    gl_Position.y = -gl_Position.y;
}
";

/// The fragment shader of the cube.
pub const CUBE_FRAGMENT: &'static str = "#version 450
layout(location = 0) in vec3 tint;
layout(location = 0) out vec4 target;
void main() {
    target = vec4(tint, 1.0);
}
";

/// The source is one of the two shaders of the kit. The compiler reports what is wrong with a
/// source in most cases, but not in all: arrays too large to lay out and expressions nested without
/// end are beyond it, so that it is given these two sources only.
pub open spec fn kit_source(source: Seq<char>) -> bool {
    source == CUBE_VERTEX@ || source == CUBE_FRAGMENT@
}

/// The shader was parsed from a source of the kit.
pub open spec fn from_kit(module: naga::Module) -> bool {
    exists|source: Seq<char>, stage: Stage|
        kit_source(source) && #[trigger] parsed(source, stage) == Some(module)
}

/// Whether a source is one of the two shaders of the kit.
pub fn is_kit_source(source: &str) -> (r: bool)
    ensures
        r == kit_source(source@),
{
    same_text(source, CUBE_VERTEX) || same_text(source, CUBE_FRAGMENT)
}

/// A shader, parsed.
#[verifier::external_type_specification]
#[verifier::external_body]
pub struct ExModule(naga::Module);

/// What validation finds out about a shader.
#[verifier::external_type_specification]
#[verifier::external_body]
pub struct ExModuleInfo(naga::valid::ModuleInfo);

/// What is wrong with a source.
#[verifier::external_type_specification]
#[verifier::external_body]
pub struct ExParseErrors(naga::front::glsl::ParseErrors);

/// What is wrong with a shader.
#[verifier::external_type_specification]
#[verifier::external_body]
pub struct ExValidationError(naga::valid::ValidationError);

/// An error and the places in the source that it speaks of.
#[verifier::external_type_specification]
#[verifier::external_body]
#[verifier::reject_recursive_types(E)]
pub struct ExWithSpan<E>(naga::WithSpan<E>);

/// Why a shader cannot be written.
#[verifier::external_type_specification]
#[verifier::external_body]
pub struct ExWriteError(naga::back::spv::Error);

/// What the GLSL front end makes of a source: the shader, or nothing if it is not GLSL.
pub uninterp spec fn parsed(source: Seq<char>, stage: Stage) -> Option<naga::Module>;

/// What the validator finds out about a shader, or nothing if it is not valid.
pub uninterp spec fn validated(module: naga::Module) -> Option<naga::valid::ModuleInfo>;

/// The words that the SPIR-V back end writes for a valid shader of the kit, or nothing if it
/// cannot. They are the same on every machine, though the back end walks hash maps: those hold the
/// local variables of a function and the trackers of its ray queries, and no function of the kit's
/// shaders has more than one local variable, or any ray query.
pub uninterp spec fn written(
    module: naga::Module,
    info: naga::valid::ModuleInfo,
    adjust: bool,
    debug: bool,
) -> Option<Seq<u32>>;

/// Parses a source by `naga::front::glsl::Frontend::parse`, for the given stage and without
/// preprocessor definitions. What comes out depends on the source and the stage alone; which
/// shader that is goes by the front end and is not stated.
#[verifier::external_body]
fn parse_glsl(source: &str, stage: Stage) -> (r: Result<
    naga::Module,
    naga::front::glsl::ParseErrors,
>)
    requires
        kit_source(source@),
    ensures
        match r {
            Ok(module) => parsed(source@, stage) == Some(module),
            Err(_) => parsed(source@, stage) is None,
        },
{
    let stage = match stage {
        Stage::Vertex => naga::ShaderStage::Vertex,
        Stage::Fragment => naga::ShaderStage::Fragment,
    };
    naga::front::glsl::Frontend::default().parse(&naga::front::glsl::Options::from(stage), source)
}

/// Validates a shader by `naga::valid::Validator::validate`, with every check on and every
/// capability allowed. What comes out depends on the shader alone; which shaders are valid goes by
/// the validator and is not stated.
#[verifier::external_body]
fn validate(module: &naga::Module) -> (r: Result<
    naga::valid::ModuleInfo,
    naga::WithSpan<naga::valid::ValidationError>,
>)
    requires
        from_kit(*module),
    ensures
        match r {
            Ok(info) => validated(*module) == Some(info),
            Err(_) => validated(*module) is None,
        },
{
    let flags = naga::valid::ValidationFlags::all();
    naga::valid::Validator::new(flags, naga::valid::Capabilities::all()).validate(module)
}

/// Writes a shader by `naga::back::spv::write_vec`, with its default options but for two flags:
/// whether the vertical axis is turned over, and whether names are kept for debuggers. What comes
/// out depends on the arguments alone, and starts with the magic word; the words after it go by the
/// back end and are not stated. The shader has to be the one that was validated.
#[verifier::external_body]
fn write_spirv(
    module: &naga::Module,
    info: &naga::valid::ModuleInfo,
    adjust: bool,
    debug: bool,
) -> (r: Result<Vec<u32>, naga::back::spv::Error>)
    requires
        from_kit(*module),
        validated(*module) == Some(*info),
    ensures
        match r {
            Ok(words) => {
                &&& written(*module, *info, adjust, debug) == Some(words@)
                &&& words@.len() > 0
                &&& words@[0] == SPIRV_MAGIC
            },
            Err(_) => written(*module, *info, adjust, debug) is None,
        },
{
    let mut options = naga::back::spv::Options::default();
    options.flags.set(naga::back::spv::WriterFlags::ADJUST_COORDINATE_SPACE, adjust);
    options.flags.set(naga::back::spv::WriterFlags::DEBUG, debug);
    naga::back::spv::write_vec(module, info, &options, None)
}

/// What compiling a shader gives. The axis is not turned over: the shaders do that themselves.
pub open spec fn compiled(source: Seq<char>, stage: Stage, debug: bool) -> Result<
    Seq<u32>,
    GlslError,
> {
    match parsed(source, stage) {
        None => Err(GlslError::Syntax),
        Some(module) => match validated(module) {
            None => Err(GlslError::Invalid),
            Some(info) => match written(module, info, false, debug) {
                None => Err(GlslError::Unwritable),
                Some(words) => Ok(words),
            },
        },
    }
}

/// Compiles a shader to the bytes of a SPIR-V module.
pub fn compile_glsl(source: &str, stage: Stage, debug: bool) -> (r: Result<Vec<u8>, GlslError>)
    requires
        kit_source(source@),
    ensures
        match r {
            Ok(bytes) => {
                &&& compiled(source@, stage, debug) matches Ok(words)
                &&& bytes@ == word_bytes(words, false)
                &&& words.len() > 0
                &&& words[0] == SPIRV_MAGIC
            },
            Err(e) => compiled(source@, stage, debug) == Err::<Seq<u32>, GlslError>(e),
        },
{
    match parse_glsl(source, stage) {
        Err(_) => Err(GlslError::Syntax),
        Ok(module) => match validate(&module) {
            Err(_) => Err(GlslError::Invalid),
            Ok(info) => match write_spirv(&module, &info, false, debug) {
                Err(_) => Err(GlslError::Unwritable),
                Ok(words) => Ok(module_bytes(&words)),
            },
        },
    }
}

/// Compiles a shader, and reads its words back from the bytes that it is stored as: they are the
/// ones that were written, so that a shader that compiles always loads.
pub fn compile_words(source: &str, stage: Stage, debug: bool) -> (r: Result<Vec<u32>, GlslError>)
    requires
        kit_source(source@),
    ensures
        match r {
            Ok(words) => compiled(source@, stage, debug) == Ok::<Seq<u32>, GlslError>(words@),
            Err(e) => compiled(source@, stage, debug) == Err::<Seq<u32>, GlslError>(e),
        },
{
    match compile_glsl(source, stage, debug) {
        Err(e) => Err(e),
        Ok(bytes) => {
            let read = shader_words(&bytes);
            proof {
                let words = compiled(source@, stage, debug)->Ok_0;
                law_read_gives_back_written(words, words, false);
                if read is Ok {
                    law_read_gives_back_written(words, read->Ok_0@, false);
                    law_read_gives_back_written(words, read->Ok_0@, true);
                }
            }
            match read {
                Ok(words) => Ok(words),
                Err(_) => {
                    assert(false);
                    Err(GlslError::Unwritable)
                },
            }
        },
    }
}

/// A shader is compiled in three stages, and what comes out tells how far it got: the bytes spell
/// the words that the back end writes for the validated shader, with the axis left as it is and
/// names kept exactly if asked; otherwise the error is that of the first stage that failed.
pub proof fn law_compiling_goes_by_stages(
    source: &str,
    stage: Stage,
    debug: bool,
    r: Result<Vec<u8>, GlslError>,
    s: Result<Vec<u32>, GlslError>,
)
    requires
        kit_source(source@),
        call_ensures(compile_glsl, (source, stage, debug), r),
        call_ensures(compile_words, (source, stage, debug), s),
    ensures
        parsed(source@, stage) is None <==> r == Err::<Vec<u8>, GlslError>(GlslError::Syntax),
        parsed(source@, stage) matches Some(module) ==> {
            &&& validated(module) is None <==> r == Err::<Vec<u8>, GlslError>(GlslError::Invalid)
            &&& validated(module) matches Some(info) ==> match written(module, info, false, debug) {
                None => r == Err::<Vec<u8>, GlslError>(GlslError::Unwritable),
                Some(words) => {
                    &&& r matches Ok(bytes) && spelled(bytes@, words, false)
                    &&& s matches Ok(read) && read@ == words
                },
            }
        },
        r is Ok <==> s is Ok,
        r matches Err(e) ==> s == Err::<Vec<u32>, GlslError>(e),
{
    if let Ok(bytes) = r {
        law_bytes_spell_words(compiled(source@, stage, debug)->Ok_0, false);
    }
}

/// The sources of the kit are its two shaders and nothing else.
pub proof fn law_kit_has_two_sources(source: &str, r: bool)
    requires
        call_ensures(is_kit_source, (source,), r),
    ensures
        r <==> source@ == CUBE_VERTEX@ || source@ == CUBE_FRAGMENT@,
{
}

} // verus!
