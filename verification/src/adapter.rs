//! Which graphics API the window runs on, and which of the machine's adapters.
use vstd::prelude::*;

verus! {

/// A graphics API that wgpu can run on.
#[derive(Clone, Copy, Debug, PartialEq, Eq, Structural)]
pub enum Backend {
    Noop,
    Vulkan,
    Metal,
    Dx12,
    Gl,
    BrowserWebGpu,
}

/// The flag of a backend in a set of backends.
pub open spec fn flag(backend: Backend) -> u32 {
    match backend {
        Backend::Noop => 1,
        Backend::Vulkan => 2,
        Backend::Metal => 4,
        Backend::Dx12 => 8,
        Backend::Gl => 16,
        Backend::BrowserWebGpu => 32,
    }
}

/// The set of backends has this one.
pub open spec fn allows(backends: u32, backend: Backend) -> bool {
    backends & flag(backend) == flag(backend)
}

/// The set of all backends.
pub open spec fn every_backend() -> u32 {
    63
}

/// The set of backends that a comma-separated list of names stands for.
pub uninterp spec fn listed_backends(list: Seq<char>) -> u32;

/// Whether a set of backends has this one, by `wgpu::Backends::contains` on the flag that
/// `wgpu::Backends::from` gives the backend.
#[verifier::external_body]
fn backends_contain(backends: u32, backend: Backend) -> (r: bool)
    ensures
        r == allows(backends, backend),
{
    let backend = match backend {
        Backend::Noop => wgpu::Backend::Noop,
        Backend::Vulkan => wgpu::Backend::Vulkan,
        Backend::Metal => wgpu::Backend::Metal,
        Backend::Dx12 => wgpu::Backend::Dx12,
        Backend::Gl => wgpu::Backend::Gl,
        Backend::BrowserWebGpu => wgpu::Backend::BrowserWebGpu,
    };
    wgpu::Backends::from_bits_retain(backends).contains(wgpu::Backends::from(backend))
}

/// The set of all backends, by `wgpu::Backends::all`: the six flags.
#[verifier::external_body]
fn backends_all() -> (r: u32)
    ensures
        r == every_backend(),
{
    wgpu::Backends::all().bits()
}

/// The backend that a word names by itself.
pub open spec fn named_backend(name: Seq<char>) -> Option<Backend> {
    if name == "vulkan"@ {
        Some(Backend::Vulkan)
    } else if name == "metal"@ {
        Some(Backend::Metal)
    } else if name == "dx12"@ {
        Some(Backend::Dx12)
    } else if name == "gl"@ {
        Some(Backend::Gl)
    } else {
        None
    }
}

/// The set of backends that a list of names stands for, by `wgpu::Backends::from_comma_list`.
/// An empty list names none, and one of the four words `vulkan`, `metal`, `dx12` and `gl` alone
/// names that backend; what other lists name goes by wgpu's table and is not stated.
#[verifier::external_body]
fn backends_from_list(list: &str) -> (r: u32)
    ensures
        r == listed_backends(list@),
        list@.len() == 0 ==> r == 0,
        named_backend(list@) matches Some(backend) ==> r == flag(backend),
{
    wgpu::Backends::from_comma_list(list).bits()
}

/// The set of backends to use, given the one that the user asked for: all of them where nothing
/// was asked for, or nothing that is known.
pub fn chosen_backends(asked: Option<u32>) -> (r: u32)
    ensures
        r == match asked {
            Some(backends) => if backends == 0 {
                every_backend()
            } else {
                backends
            },
            None => every_backend(),
        },
{
    match asked {
        Some(backends) => if backends == 0 {
            backends_all()
        } else {
            backends
        },
        None => backends_all(),
    }
}

/// The set of backends to use, given the list of names that the user wrote, if any.
pub fn backends_from_names(list: Option<&str>) -> (r: u32)
    ensures
        list is None ==> r == every_backend(),
        list matches Some(names) ==> r == if listed_backends(names@) == 0 {
            every_backend()
        } else {
            listed_backends(names@)
        },
        list matches Some(names) ==> (names@.len() == 0 ==> r == every_backend()),
        list matches Some(names) ==> (named_backend(names@) matches Some(backend) ==> r == flag(
            backend,
        )),
{
    match list {
        Some(names) => chosen_backends(Some(backends_from_list(names))),
        None => chosen_backends(None),
    }
}

/// What renders the window: wgpu on one of a set of backends, or a native API.
#[derive(Clone, Copy, Debug, PartialEq, Eq, Structural)]
pub enum Ui {
    Wgpu(u32),
    Metal,
    Vulkan,
    Dx12,
    OpenGl,
}

impl Ui {
    /// The backends that the window's device may run on.
    pub open spec fn device_backends(self) -> u32 {
        match self {
            Ui::Wgpu(backends) => backends,
            Ui::Metal => flag(Backend::Metal),
            Ui::Vulkan => flag(Backend::Vulkan),
            Ui::Dx12 => flag(Backend::Dx12),
            Ui::OpenGl => flag(Backend::Gl),
        }
    }

    /// The backends that the window's device may run on: those of wgpu, or the one native API.
    pub fn backends(self) -> (r: u32)
        ensures
            r == self.device_backends(),
    {
        match self {
            Ui::Wgpu(backends) => backends,
            Ui::Metal => 4,
            Ui::Vulkan => 2,
            Ui::Dx12 => 8,
            Ui::OpenGl => 16,
        }
    }

    /// Whether the choice of adapter has to be restricted at all.
    pub fn restricts_adapters(self) -> (r: bool)
        ensures
            r == (self.device_backends() != every_backend()),
    {
        self.backends() != backends_all()
    }
}

/// What the choice of an adapter looks at.
#[derive(Clone, Copy, Debug, PartialEq, Eq, Structural)]
pub struct AdapterInfo {
    pub backend: Backend,
    /// A GPU of its own, as opposed to one that is part of the processor.
    pub discrete: bool,
}

/// `i` is the first adapter of the list on one of the backends.
pub open spec fn first_allowed(infos: Seq<AdapterInfo>, backends: u32, i: int) -> bool {
    &&& 0 <= i < infos.len()
    &&& allows(backends, infos[i].backend)
    &&& forall|j: int| 0 <= j < i ==> !allows(backends, (#[trigger] infos[j]).backend)
}

/// `i` is the first discrete adapter of the list on `backend`.
pub open spec fn first_discrete(infos: Seq<AdapterInfo>, backend: Backend, i: int) -> bool {
    &&& 0 <= i < infos.len()
    &&& infos[i].backend == backend
    &&& infos[i].discrete
    &&& forall|j: int|
        0 <= j < i ==> !((#[trigger] infos[j]).backend == backend && infos[j].discrete)
}

/// `i` is the adapter to run on: the first one on an allowed backend, unless a discrete GPU is
/// there for the same backend.
pub open spec fn preferred(infos: Seq<AdapterInfo>, backends: u32, i: int) -> bool {
    exists|first: int| #[trigger]
        first_allowed(infos, backends, first) && (first_discrete(infos, infos[first].backend, i)
            || (i == first && forall|j: int|
            0 <= j < infos.len() ==> !((#[trigger] infos[j]).backend == infos[first].backend
                && infos[j].discrete)))
}

/// Chooses the adapter to run on among those that the machine has.
pub fn select_adapter(infos: &Vec<AdapterInfo>, backends: u32) -> (r: Option<usize>)
    ensures
        match r {
            Some(i) => preferred(infos@, backends, i as int),
            None => forall|j: int|
                0 <= j < infos.len() ==> !allows(backends, (#[trigger] infos[j]).backend),
        },
{
    let mut first: usize = 0;
    while first < infos.len() && !backends_contain(backends, infos[first].backend)
        invariant
            first <= infos.len(),
            forall|j: int| 0 <= j < first ==> !allows(backends, (#[trigger] infos@[j]).backend),
        decreases infos.len() - first,
    {
        first += 1;
    }
    if first == infos.len() {
        return None;
    }
    assert(first_allowed(infos@, backends, first as int));
    let backend = infos[first].backend;
    let mut i: usize = 0;
    while i < infos.len()
        invariant
            i <= infos.len(),
            first < infos.len(),
            backend == infos@[first as int].backend,
            first_allowed(infos@, backends, first as int),
            forall|j: int|
                0 <= j < i ==> !((#[trigger] infos@[j]).backend == backend && infos@[j].discrete),
        decreases infos.len() - i,
    {
        if infos[i].backend == backend && infos[i].discrete {
            assert(first_discrete(infos@, backend, i as int));
            return Some(i);
        }
        i += 1;
    }
    Some(first)
}

/// The choice is the only one, it is on an allowed backend, and no adapter before it on the
/// list is both on its backend and as good.
pub proof fn law_adapter_choice(infos: Seq<AdapterInfo>, backends: u32, i: int, j: int)
    requires
        preferred(infos, backends, i),
    ensures
        0 <= i < infos.len(),
        allows(backends, infos[i].backend),
        preferred(infos, backends, j) ==> i == j,
        0 <= j < infos.len() && infos[j].backend == infos[i].backend && infos[j].discrete
            ==> infos[i].discrete,
        0 <= j < i && infos[j].backend == infos[i].backend ==> infos[i].discrete
            && !infos[j].discrete,
{
    let a = choose|first: int| #[trigger]
        first_allowed(infos, backends, first) && (first_discrete(infos, infos[first].backend, i)
            || (i == first && forall|k: int|
            0 <= k < infos.len() ==> !((#[trigger] infos[k]).backend == infos[first].backend
                && infos[k].discrete)));
    if 0 <= j < infos.len() {
        assert(infos[j] == infos[j]);
    }
    if preferred(infos, backends, j) {
        let b = choose|first: int| #[trigger]
            first_allowed(infos, backends, first) && (first_discrete(
                infos,
                infos[first].backend,
                j,
            ) || (j == first && forall|k: int|
                0 <= k < infos.len() ==> !((#[trigger] infos[k]).backend == infos[first].backend
                    && infos[k].discrete)));
        assert(a == b) by {
            assert(infos[a] == infos[a] && infos[b] == infos[b]);
        }
        assert(infos[i] == infos[i] && infos[j] == infos[j]);
    }
}

/// The flags of the backends are six single bits, in the order of the backends, so that a set
/// tells each of them apart: the set of one has that one only, the set of all has every one, and
/// the empty set none.
pub proof fn law_flags_tell_backends_apart(a: Backend, b: Backend)
    ensures
        allows(flag(a), b) <==> a == b,
        allows(every_backend(), a),
        !allows(0, a),
        flag(Backend::Noop) == 1,
        flag(Backend::Vulkan) == 2,
        flag(Backend::Metal) == 4,
        flag(Backend::Dx12) == 8,
        flag(Backend::Gl) == 16,
        flag(Backend::BrowserWebGpu) == 32,
{
    assert(forall|x: u32, y: u32|
        #![trigger x & y]
        (x == 1 || x == 2 || x == 4 || x == 8 || x == 16 || x == 32) && (y == 1 || y == 2 || y == 4
            || y == 8 || y == 16 || y == 32) ==> (x & y == y <==> x == y) && 63u32 & y == y && 0u32
            & y != y) by (bit_vector);
    assert(flag(a) & flag(b) == flag(b) <==> flag(a) == flag(b));
    assert(63u32 & flag(a) == flag(a) && 0u32 & flag(a) != flag(a)) by {
        assert(flag(a) & flag(a) == flag(a));
    }
}

/// A user who asks for nothing, or for nothing that is known, gets every backend; one who asks for
/// a set gets exactly that set.
pub proof fn law_choice_is_what_was_asked(asked: Option<u32>, r: u32, b: Backend)
    requires
        call_ensures(chosen_backends, (asked,), r),
    ensures
        asked is None || asked == Some(0u32) ==> allows(r, b),
        asked matches Some(set) ==> (set != 0 ==> r == set),
        r != 0,
{
    law_flags_tell_backends_apart(b, b);
}

/// The four words for the native APIs name the backend of that API and no other; an empty list, or
/// none, leaves every backend.
pub proof fn law_words_name_one_backend(list: Option<&str>, r: u32, b: Backend)
    requires
        call_ensures(backends_from_names, (list,), r),
    ensures
        list is None ==> allows(r, b),
        list matches Some(names) ==> {
            &&& names@.len() == 0 ==> allows(r, b)
            &&& names@ == "vulkan"@ ==> (allows(r, b) <==> b is Vulkan)
            &&& names@ == "metal"@ ==> (allows(r, b) <==> b is Metal)
            &&& names@ == "dx12"@ ==> (allows(r, b) <==> b is Dx12)
            &&& names@ == "gl"@ ==> (allows(r, b) <==> b is Gl)
        },
{
    law_flags_tell_backends_apart(Backend::Vulkan, b);
    law_flags_tell_backends_apart(Backend::Metal, b);
    law_flags_tell_backends_apart(Backend::Dx12, b);
    law_flags_tell_backends_apart(Backend::Gl, b);
    law_flags_tell_backends_apart(b, b);
    reveal_strlit("vulkan");
    reveal_strlit("metal");
    reveal_strlit("dx12");
    reveal_strlit("gl");
}

/// A window on a native API runs on the backend of that API and no other, and so restricts its
/// adapters; one on wgpu runs on the backends that it was given, and restricts them unless these
/// are all.
pub proof fn law_native_window_has_one_backend(ui: Ui, r: u32, restricts: bool, b: Backend)
    requires
        call_ensures(Ui::backends, (ui,), r),
        call_ensures(Ui::restricts_adapters, (ui,), restricts),
    ensures
        match ui {
            Ui::Wgpu(backends) => r == backends && (restricts <==> backends != 63),
            Ui::Vulkan => restricts && (allows(r, b) <==> b is Vulkan),
            Ui::Metal => restricts && (allows(r, b) <==> b is Metal),
            Ui::Dx12 => restricts && (allows(r, b) <==> b is Dx12),
            Ui::OpenGl => restricts && (allows(r, b) <==> b is Gl),
        },
{
    law_flags_tell_backends_apart(Backend::Vulkan, b);
    law_flags_tell_backends_apart(Backend::Metal, b);
    law_flags_tell_backends_apart(Backend::Dx12, b);
    law_flags_tell_backends_apart(Backend::Gl, b);
}

/// An adapter is chosen exactly if one is on an allowed backend. It has the backend of the first
/// one that is allowed, is discrete if any of that backend is, and is the first that is as good.
pub proof fn law_adapter_goes_by_first_backend(
    infos: &Vec<AdapterInfo>,
    backends: u32,
    r: Option<usize>,
    j: int,
)
    requires
        call_ensures(select_adapter, (infos, backends), r),
        0 <= j < infos.len(),
    ensures
        allows(backends, infos@[j].backend) ==> r is Some,
        r matches Some(i) ==> {
            &&& i < infos.len()
            &&& allows(backends, infos@[i as int].backend)
            &&& allows(backends, infos@[j].backend) ==> exists|k: int|
                0 <= k <= j && (#[trigger] infos@[k]).backend == infos@[i as int].backend
            &&& infos@[j].backend == infos@[i as int].backend && infos@[j].discrete
                ==> infos@[i as int].discrete
            &&& infos@[j].backend == infos@[i as int].backend && j < i
                ==> infos@[i as int].discrete && !infos@[j].discrete
        },
{
    if r is None {
        assert(!allows(backends, infos[j].backend));
    }
    if let Some(i) = r {
        law_adapter_choice(infos@, backends, i as int, j);
        let a = choose|first: int| #[trigger]
            first_allowed(infos@, backends, first) && (first_discrete(
                infos@,
                infos@[first].backend,
                i as int,
            ) || (i == first && forall|k: int|
                0 <= k < infos.len() ==> !((#[trigger] infos@[k]).backend == infos@[first].backend
                    && infos@[k].discrete)));
        if allows(backends, infos@[j].backend) {
            assert(a <= j);
            assert(infos@[a].backend == infos@[i as int].backend);
        }
    }
}

} // verus!
