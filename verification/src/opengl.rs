//! The OpenGL engine: its context, its functions and its messages.
use crate::text::same_text;
use vstd::prelude::*;

verus! {

/// `GL_DEBUG_TYPE_ERROR`
pub const DEBUG_TYPE_ERROR: u32 = 0x824c;

/// The attributes of the context: OpenGL 4.5, core profile, for debugging or not. Names and values
/// alternate, and a zero ends them.
pub open spec fn attributes(debug: bool) -> Seq<i32> {
    seq![
        0x2091,
        4,
        0x2092,
        5,
        0x9126,
        1,
        0x2094,
        if debug {
            1
        } else {
            0
        },
        0,
    ]
}

/// The attributes of the context.
pub fn context_attributes(debug: bool) -> (r: Vec<i32>)
    ensures
        r@ == attributes(debug),
{
    let flags: i32 = if debug {
        1
    } else {
        0
    };
    let r: Vec<i32> = vec![0x2091, 4, 0x2092, 5, 0x9126, 1, 0x2094, flags, 0];
    assert(r@ =~= attributes(debug));
    r
}

/// Whether the context is one for debugging: in builds for debugging, and where the user asks for
/// it by a `1`.
pub fn wants_debug(build: bool, asked: Option<&str>) -> (r: bool)
    ensures
        r == (build || (asked matches Some(text) && text@ == "1"@)),
{
    build || match asked {
        Some(text) => same_text(text, "1"),
        None => false,
    }
}

/// `GL_UPPER_LEFT`
pub const UPPER_LEFT: u32 = 0x8ca2;

/// `GL_ZERO_TO_ONE`
pub const ZERO_TO_ONE: u32 = 0x935f;

/// A step of the setup of the engine.
#[derive(Clone, Copy, Debug, PartialEq, Eq, Structural)]
pub enum SetupStep {
    /// Takes the lock of the window's queue, so that the window's context is current nowhere.
    LockQueue,
    /// Makes a context that shares the objects of the window's.
    CreateContext,
    /// Lets go of the lock.
    UnlockQueue,
    /// Looks the functions of OpenGL up.
    LoadFunctions,
    /// Has the driver report its messages as they come up.
    ReportMessages,
    /// Sets where the origin of the picture is, and which depths are drawn.
    ClipControl(u32, u32),
    CreateProgram,
    CreateMesh,
    /// Fails if any step has left an error.
    CheckErrors,
}

/// The setup of the engine. Its pictures have row 0 on top and depths from 0 to 1, as those of the
/// other engines.
pub open spec fn setup() -> Seq<SetupStep> {
    seq![
        SetupStep::LockQueue,
        SetupStep::CreateContext,
        SetupStep::UnlockQueue,
        SetupStep::LoadFunctions,
        SetupStep::ReportMessages,
        SetupStep::ClipControl(UPPER_LEFT, ZERO_TO_ONE),
        SetupStep::CreateProgram,
        SetupStep::CreateMesh,
        SetupStep::CheckErrors,
    ]
}

/// The steps of the setup, in order.
pub fn setup_steps() -> (r: Vec<SetupStep>)
    ensures
        r@ == setup(),
{
    let (origin, depths) = clip_control();
    let r: Vec<SetupStep> = vec![
        SetupStep::LockQueue,
        SetupStep::CreateContext,
        SetupStep::UnlockQueue,
        SetupStep::LoadFunctions,
        SetupStep::ReportMessages,
        SetupStep::ClipControl(origin, depths),
        SetupStep::CreateProgram,
        SetupStep::CreateMesh,
        SetupStep::CheckErrors,
    ];
    assert(r@ =~= setup());
    r
}

/// Where the origin of the picture is, and which depths are drawn: row 0 on top, from 0 to 1.
pub fn clip_control() -> (r: (u32, u32))
    ensures
        r == (UPPER_LEFT, ZERO_TO_ONE),
{
    (UPPER_LEFT, ZERO_TO_ONE)
}

/// The lock of the window's queue is held after the first `n` steps.
pub open spec fn lock_held(steps: Seq<SetupStep>, n: int) -> bool
    decreases n,
{
    if n <= 0 {
        false
    } else if steps[n - 1] is LockQueue {
        true
    } else if steps[n - 1] is UnlockQueue {
        false
    } else {
        lock_held(steps, n - 1)
    }
}

/// The context is made while the lock of the window's queue is held, and nothing else is done under
/// it: the lock is free again when the setup is over.
pub proof fn law_context_is_made_under_lock(n: int)
    requires
        0 <= n < setup().len(),
    ensures
        setup()[n] is CreateContext ==> lock_held(setup(), n),
        lock_held(setup(), n) ==> setup()[n] is CreateContext || setup()[n] is UnlockQueue,
        !lock_held(setup(), setup().len() as int),
{
    reveal_with_fuel(lock_held, 10);
}

/// `wglGetProcAddress` has found the function: it reports failure by no address, or by one, two,
/// three or minus one.
pub open spec fn found(address: Option<usize>) -> bool {
    address matches Some(a) && a > 3 && a != usize::MAX
}

/// The address of an OpenGL function, given what `wglGetProcAddress` and the library's own table
/// say: the former has the functions that came after version 1.1, and the latter the others. Zero
/// if neither has it.
pub fn function_address(extension: Option<usize>, library: Option<usize>) -> (r: usize)
    ensures
        r == if found(extension) {
            extension->0
        } else {
            match library {
                Some(address) => address,
                None => 0,
            }
        },
{
    match extension {
        Some(address) if address > 3 && address != usize::MAX => address,
        _ => match library {
            Some(address) => address,
            None => 0,
        },
    }
}

/// Whether a message of the driver is to be shown.
pub fn is_error_message(kind: u32) -> (r: bool)
    ensures
        r == (kind == DEBUG_TYPE_ERROR),
{
    kind == DEBUG_TYPE_ERROR
}

/// `text` is what a log buffer holds: all that comes before the zeros that fill it up.
pub open spec fn log_of(buffer: Seq<u8>, text: Seq<u8>) -> bool {
    &&& text.len() <= buffer.len()
    &&& text == buffer.take(text.len() as int)
    &&& forall|i: int| text.len() <= i < buffer.len() ==> buffer[i] == 0
    &&& text.len() > 0 ==> text.last() != 0
}

/// Cuts the zeros off the end of a log buffer.
pub fn trim_log(buffer: &Vec<u8>) -> (r: Vec<u8>)
    ensures
        log_of(buffer@, r@),
{
    let mut n: usize = buffer.len();
    while n > 0 && buffer[n - 1] == 0
        invariant
            n <= buffer.len(),
            forall|i: int| n <= i < buffer.len() ==> buffer@[i] == 0,
        decreases n,
    {
        n -= 1;
    }
    let mut r: Vec<u8> = Vec::new();
    let mut i: usize = 0;
    while i < n
        invariant
            i <= n <= buffer.len(),
            r@ == buffer@.take(i as int),
        decreases n - i,
    {
        r.push(buffer[i]);
        assert(r@ =~= buffer@.take(i + 1));
        i += 1;
    }
    r
}

/// A log buffer has one text only.
pub proof fn law_log_is_unique(buffer: Seq<u8>, a: Seq<u8>, b: Seq<u8>)
    requires
        log_of(buffer, a),
        log_of(buffer, b),
    ensures
        a == b,
{
    if a.len() < b.len() {
        assert(b.last() == buffer[b.len() - 1]);
    } else if b.len() < a.len() {
        assert(a.last() == buffer[a.len() - 1]);
    }
    assert(a =~= b);
}

/// An address that the driver gives is taken, unless it is one of the five values by which it
/// reports that it has none; then the library's address is taken, and zero if that has none
/// either.
pub proof fn law_address_is_the_drivers_first(
    extension: Option<usize>,
    library: Option<usize>,
    r: usize,
)
    requires
        call_ensures(function_address, (extension, library), r),
    ensures
        extension matches Some(a) ==> (3 < a < usize::MAX ==> r == a),
        extension is None || extension == Some(0usize) || extension == Some(1usize) || extension
            == Some(2usize) || extension == Some(3usize) || extension == Some(usize::MAX) ==> (
        library matches Some(b) ==> r == b) && (library is None ==> r == 0),
{
}

/// A context for debugging is made in builds for debugging, and where the user asks by a `1` and by
/// nothing else. All contexts are of one version and profile, and only the flag tells them apart.
pub proof fn law_debug_is_asked_for(
    build: bool,
    asked: Option<&str>,
    debug: bool,
    given: Vec<i32>,
    i: int,
)
    requires
        call_ensures(wants_debug, (build, asked), debug),
        call_ensures(context_attributes, (debug,), given),
        0 <= i < 4,
    ensures
        build ==> debug,
        asked is None ==> debug == build,
        asked matches Some(text) ==> (debug <==> build || text@ == seq!['1']),
        given.len() == 9,
        given@[2 * i] != 0,
        given@[8] == 0,
        given@[0] == 0x2091 && given@[1] == 4,
        given@[2] == 0x2092 && given@[3] == 5,
        given@[4] == 0x9126 && given@[5] == 1,
        given@[6] == 0x2094,
        given@[7] == 1 <==> debug,
        given@[7] == 0 <==> !debug,
{
    reveal_strlit("1");
    assert("1"@ =~= seq!['1']);
}

/// Of the driver's messages only errors are shown.
pub proof fn law_only_errors_are_shown(kind: u32, r: bool)
    requires
        call_ensures(is_error_message, (kind,), r),
    ensures
        r <==> kind == 0x824c,
{
}

/// The log is what stands in the buffer before the zeros that fill it up: its bytes are those of
/// the buffer, it ends in no zero, and only zeros are left out. More zeros make no difference.
pub proof fn law_log_ends_before_zeros(
    buffer: Vec<u8>,
    longer: Vec<u8>,
    r: Vec<u8>,
    s: Vec<u8>,
    i: int,
)
    requires
        call_ensures(trim_log, (&buffer,), r),
        call_ensures(trim_log, (&longer,), s),
        longer@ == buffer@.push(0),
        0 <= i < buffer.len(),
    ensures
        r.len() <= buffer.len(),
        i < r.len() ==> r@[i] == buffer@[i],
        i >= r.len() ==> buffer@[i] == 0,
        r.len() > 0 ==> r@[r.len() - 1] != 0,
        s@ == r@,
{
    if s.len() > buffer.len() {
        assert(s@.last() == longer@[buffer.len() as int]);
    }
    assert(log_of(buffer@, s@)) by {
        assert(longer@.take(s.len() as int) =~= buffer@.take(s.len() as int));
        assert forall|k: int| s.len() <= k < buffer.len() implies buffer@[k] == 0 by {
            assert(longer@[k] == buffer@[k]);
        }
    }
    law_log_is_unique(buffer@, r@, s@);
}

/// The setup makes the context between taking and letting go of the lock, looks the functions up
/// before it calls any, sets the origin and the depths before anything is drawn, and looks for
/// errors last. The origin is on top, and depths go from zero to one, by OpenGL's own numbers for
/// these.
pub proof fn law_setup_goes_in_order(steps: Vec<SetupStep>, clip: (u32, u32))
    requires
        call_ensures(setup_steps, (), steps),
        call_ensures(clip_control, (), clip),
    ensures
        clip == (0x8ca2u32, 0x935fu32),
        steps.len() == 9,
        steps@[0] is LockQueue,
        steps@[1] is CreateContext,
        steps@[2] is UnlockQueue,
        steps@[3] is LoadFunctions,
        steps@[4] is ReportMessages,
        steps@[5] == SetupStep::ClipControl(clip.0, clip.1),
        steps@[6] is CreateProgram,
        steps@[7] is CreateMesh,
        steps@[8] is CheckErrors,
{
}

} // verus!
