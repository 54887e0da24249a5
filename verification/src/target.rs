//! What an engine keeps for the size of the surface: the depth buffer, and one framebuffer for
//! each of the surface's buffers.
use crate::cache::KeyedCache;
use vstd::prelude::*;

verus! {

/// A depth buffer and the size it was made for.
pub struct DepthTarget<D> {
    held: Option<(D, (u32, u32))>,
}

impl<D> DepthTarget<D> {
    /// The depth buffer and its size.
    pub closed spec fn content(self) -> Option<(D, (u32, u32))> {
        self.held
    }

    /// No depth buffer yet.
    pub fn new() -> (r: DepthTarget<D>)
        ensures
            r.content() is None,
    {
        DepthTarget { held: None }
    }

    /// The size of the depth buffer.
    pub fn size(&self) -> (r: Option<(u32, u32)>)
        ensures
            r == match self.content() {
                Some(held) => Some(held.1),
                None => None,
            },
    {
        match &self.held {
            Some(held) => Some(held.1),
            None => None,
        }
    }

    /// The depth buffer.
    pub fn depth(&self) -> (r: Option<&D>)
        ensures
            match r {
                Some(depth) => self.content() matches Some(held) && held.0 == *depth,
                None => self.content() is None,
            },
    {
        match &self.held {
            Some(held) => Some(&held.0),
            None => None,
        }
    }

    /// Replaces the depth buffer by one of another size.
    pub fn replace(&mut self, depth: D, width: u32, height: u32)
        ensures
            final(self).content() == Some((depth, (width, height))),
    {
        self.held = Some((depth, (width, height)));
    }
}

/// The depth buffer of a size, and the framebuffers that use it, by the texture they draw into.
pub struct SurfaceTarget<D, F> {
    pub size: (u32, u32),
    pub depth: D,
    pub framebuffers: KeyedCache<F>,
}

/// A target, with its framebuffers as a map.
pub struct TargetModel<D, F> {
    pub size: (u32, u32),
    pub depth: D,
    pub framebuffers: Map<u64, F>,
}

/// A target of a size that has no framebuffer yet.
pub open spec fn fresh_target<D, F>(size: (u32, u32), depth: D) -> TargetModel<D, F> {
    TargetModel { size, depth, framebuffers: Map::empty() }
}

/// The target with a framebuffer more.
pub open spec fn with_framebuffer<D, F>(
    target: TargetModel<D, F>,
    texture: u64,
    framebuffer: F,
) -> TargetModel<D, F> {
    TargetModel { framebuffers: target.framebuffers.insert(texture, framebuffer), ..target }
}

impl<D, F> View for SurfaceTarget<D, F> {
    type V = TargetModel<D, F>;

    open spec fn view(&self) -> TargetModel<D, F> {
        TargetModel { size: self.size, depth: self.depth, framebuffers: self.framebuffers@ }
    }
}

/// The target of the surface's present size.
pub struct TargetSlot<D, F> {
    held: Option<SurfaceTarget<D, F>>,
}

impl<D, F> View for TargetSlot<D, F> {
    type V = Option<TargetModel<D, F>>;

    closed spec fn view(&self) -> Option<TargetModel<D, F>> {
        match self.held {
            Some(target) => Some(target@),
            None => None,
        }
    }
}

impl<D, F> TargetSlot<D, F> {
    /// The framebuffers at hand, by texture.
    pub open spec fn framebuffers(self) -> Map<u64, F> {
        match self@ {
            Some(target) => target.framebuffers,
            None => Map::empty(),
        }
    }

    /// No target yet.
    pub fn new() -> (r: TargetSlot<D, F>)
        ensures
            r@ is None,
    {
        TargetSlot { held: None }
    }

    /// The size of the target.
    pub fn size(&self) -> (r: Option<(u32, u32)>)
        ensures
            r == match self@ {
                Some(target) => Some(target.size),
                None => None,
            },
    {
        match &self.held {
            Some(target) => Some(target.size),
            None => None,
        }
    }

    /// The depth buffer of the target.
    pub fn depth(&self) -> (r: Option<&D>)
        ensures
            match r {
                Some(depth) => self@ is Some && self@->0.depth == *depth,
                None => self@ is None,
            },
    {
        match &self.held {
            Some(target) => Some(&target.depth),
            None => None,
        }
    }

    /// Takes the target out, to be released.
    pub fn take(&mut self) -> (r: Option<SurfaceTarget<D, F>>)
        ensures
            old(self)@ == match r {
                Some(target) => Some(target@),
                None => None,
            },
            final(self)@ is None,
    {
        self.held.take()
    }

    /// Puts in a target of a new size, which has no framebuffer yet.
    pub fn install(&mut self, depth: D, width: u32, height: u32)
        requires
            old(self)@ is None,
        ensures
            final(self)@ == Some(fresh_target::<D, F>((width, height), depth)),
    {
        self.held = Some(
            SurfaceTarget { size: (width, height), depth, framebuffers: KeyedCache::new() },
        );
    }

    /// The framebuffer that draws into a texture.
    pub fn framebuffer(&self, texture: u64) -> (r: Option<&F>)
        ensures
            match r {
                Some(framebuffer) => self.framebuffers().dom().contains(texture)
                    && self.framebuffers()[texture] == *framebuffer,
                None => !self.framebuffers().dom().contains(texture),
            },
    {
        match &self.held {
            Some(target) => target.framebuffers.get(texture),
            None => None,
        }
    }

    /// Adds the framebuffer of a texture that has none.
    pub fn add_framebuffer(&mut self, texture: u64, framebuffer: F)
        requires
            old(self)@ is Some,
            !old(self).framebuffers().dom().contains(texture),
        ensures
            final(self)@ == Some(with_framebuffer(old(self)@->0, texture, framebuffer)),
    {
        match self.held.take() {
            Some(mut target) => {
                target.framebuffers.insert(texture, framebuffer);
                self.held = Some(target);
            },
            None => {},
        }
    }
}

/// A frame that is drawn into a texture of a surface of a size, with the depth buffer and the
/// framebuffer that the GPU gives if they have to be made.
pub struct Draw<D, F> {
    pub size: (u32, u32),
    pub texture: u64,
    pub depth: D,
    pub framebuffer: F,
}

/// The target after a frame: replaced if the size is another, and with a framebuffer for the
/// texture.
pub open spec fn target_after<D, F>(
    slot: Option<TargetModel<D, F>>,
    draw: Draw<D, F>,
) -> TargetModel<D, F> {
    let target = if slot is Some && slot->0.size == draw.size {
        slot->0
    } else {
        fresh_target(draw.size, draw.depth)
    };
    if target.framebuffers.dom().contains(draw.texture) {
        target
    } else {
        with_framebuffer(target, draw.texture, draw.framebuffer)
    }
}

/// The target after the first `n` frames.
pub open spec fn target_after_all<D, F>(draws: Seq<Draw<D, F>>, n: int) -> Option<
    TargetModel<D, F>,
>
    decreases n,
{
    if n <= 0 {
        None
    } else {
        Some(target_after(target_after_all(draws, n - 1), draws[n - 1]))
    }
}

/// The framebuffer that frame `i` draws with.
pub open spec fn framebuffer_of<D, F>(draws: Seq<Draw<D, F>>, i: int) -> F {
    target_after_all(draws, i + 1)->0.framebuffers[draws[i].texture]
}

/// As long as the size of the surface stays, so do the depth buffer and the framebuffer of each
/// texture: none is made twice.
pub proof fn law_framebuffers_last<D, F>(draws: Seq<Draw<D, F>>, i: int, j: int)
    requires
        0 <= i <= j < draws.len(),
        forall|k: int| i <= k <= j ==> (#[trigger] draws[k]).size == draws[i].size,
    ensures
        ({
            let (then, now) = (target_after_all(draws, i + 1)->0, target_after_all(draws, j + 1)->0);
            &&& now.size == draws[i].size
            &&& now.depth == then.depth
            &&& now.framebuffers.dom().contains(draws[i].texture)
            &&& now.framebuffers[draws[i].texture] == framebuffer_of(draws, i)
            &&& draws[j].texture == draws[i].texture ==> framebuffer_of(draws, j)
                == framebuffer_of(draws, i)
        }),
    decreases j - i,
{
    if i < j {
        law_framebuffers_last(draws, i, j - 1);
        assert(draws[j].size == draws[i].size);
    }
}

/// A new size starts afresh: the target has that size, its own depth buffer, and a framebuffer for
/// the one texture drawn into, whatever framebuffer a texture of the same name had before.
pub proof fn law_new_size_starts_afresh<D, F>(draws: Seq<Draw<D, F>>, j: int)
    requires
        0 < j < draws.len(),
        draws[j].size != draws[j - 1].size,
    ensures
        target_after_all(draws, j + 1) == Some(
            with_framebuffer(
                fresh_target::<D, F>(draws[j].size, draws[j].depth),
                draws[j].texture,
                draws[j].framebuffer,
            ),
        ),
        framebuffer_of(draws, j) == draws[j].framebuffer,
{
    assert(target_after_all(draws, j)->0.size == draws[j - 1].size);
    let fresh = fresh_target::<D, F>(draws[j].size, draws[j].depth);
    assert(!fresh.framebuffers.dom().contains(draws[j].texture));
}

/// Every framebuffer was made for its texture.
proof fn lemma_framebuffers_were_made<D, F>(draws: Seq<Draw<D, F>>, n: int, texture: u64)
    requires
        0 < n <= draws.len(),
        target_after_all(draws, n)->0.framebuffers.dom().contains(texture),
    ensures
        exists|m: int|
            0 <= m < n && (#[trigger] draws[m]).texture == texture && draws[m].framebuffer
                == target_after_all(draws, n)->0.framebuffers[texture],
    decreases n,
{
    let before = target_after_all(draws, n - 1);
    let now = target_after_all(draws, n)->0;
    if before is Some && before->0.size == draws[n - 1].size
        && before->0.framebuffers.dom().contains(texture) {
        lemma_framebuffers_were_made(draws, n - 1, texture);
        let m = choose|m: int|
            0 <= m < n - 1 && (#[trigger] draws[m]).texture == texture && draws[m].framebuffer
                == before->0.framebuffers[texture];
        assert(draws[m].texture == texture && draws[m].framebuffer == now.framebuffers[texture]);
    } else {
        assert(draws[n - 1].texture == texture && draws[n - 1].framebuffer
            == now.framebuffers[texture]);
    }
}

/// Frames into different textures draw with different framebuffers, given that the GPU never gives
/// the same one twice.
pub proof fn law_textures_do_not_share<D, F>(draws: Seq<Draw<D, F>>, i: int, j: int)
    requires
        0 <= i < draws.len(),
        0 <= j < draws.len(),
        draws[i].texture != draws[j].texture,
        forall|a: int, b: int|
            0 <= a < b < draws.len() ==> (#[trigger] draws[a]).framebuffer != (
            #[trigger] draws[b]).framebuffer,
    ensures
        framebuffer_of(draws, i) != framebuffer_of(draws, j),
{
    lemma_framebuffers_were_made(draws, i + 1, draws[i].texture);
    lemma_framebuffers_were_made(draws, j + 1, draws[j].texture);
    let a = choose|m: int|
        0 <= m < i + 1 && (#[trigger] draws[m]).texture == draws[i].texture && draws[m].framebuffer
            == framebuffer_of(draws, i);
    let b = choose|m: int|
        0 <= m < j + 1 && (#[trigger] draws[m]).texture == draws[j].texture && draws[m].framebuffer
            == framebuffer_of(draws, j);
    assert(draws[a].texture != draws[b].texture);
    if a < b {
        assert(draws[a].framebuffer != draws[b].framebuffer);
    } else {
        assert(draws[b].framebuffer != draws[a].framebuffer);
    }
}

/// A depth buffer comes back with the size that it was made for, and replaces the one before it.
pub proof fn law_depth_comes_back<D>(
    target: &mut DepthTarget<D>,
    depth: D,
    width: u32,
    height: u32,
    after: DepthTarget<D>,
    size: Option<(u32, u32)>,
    held: Option<&D>,
    empty: DepthTarget<D>,
    no_size: Option<(u32, u32)>,
)
    requires
        call_ensures(DepthTarget::<D>::replace, (target, depth, width, height), ()),
        after == *final(target),
        call_ensures(DepthTarget::<D>::size, (&after,), size),
        call_ensures(DepthTarget::<D>::depth, (&after,), held),
        call_ensures(DepthTarget::<D>::new, (), empty),
        call_ensures(DepthTarget::<D>::size, (&empty,), no_size),
    ensures
        size == Some((width, height)),
        held matches Some(d) && *d == depth,
        no_size is None,
{
}

/// A target that is put in has the size and the depth buffer that it was put in with and no
/// framebuffer; taking it out leaves none.
pub proof fn law_target_comes_back<D, F>(
    slot: &mut TargetSlot<D, F>,
    depth: D,
    width: u32,
    height: u32,
    after: TargetSlot<D, F>,
    size: Option<(u32, u32)>,
    held: Option<&D>,
    texture: u64,
    framebuffer: Option<&F>,
    emptied: &mut TargetSlot<D, F>,
    taken: Option<SurfaceTarget<D, F>>,
)
    requires
        old(slot)@ is None,
        call_ensures(TargetSlot::<D, F>::install, (slot, depth, width, height), ()),
        after == *final(slot),
        call_ensures(TargetSlot::<D, F>::size, (&after,), size),
        call_ensures(TargetSlot::<D, F>::depth, (&after,), held),
        call_ensures(TargetSlot::<D, F>::framebuffer, (&after, texture), framebuffer),
        *old(emptied) == after,
        call_ensures(TargetSlot::<D, F>::take, (emptied,), taken),
    ensures
        size == Some((width, height)),
        held matches Some(d) && *d == depth,
        framebuffer is None,
        final(emptied)@ is None,
        taken matches Some(target) && target.size == (width, height) && target.depth == depth,
{
}

/// A framebuffer that is added is found under its texture, and the size, the depth buffer and the
/// other framebuffers stay.
pub proof fn law_framebuffer_comes_back<D, F>(
    slot: &mut TargetSlot<D, F>,
    texture: u64,
    framebuffer: F,
    after: TargetSlot<D, F>,
    other: u64,
    found: Option<&F>,
    size: Option<(u32, u32)>,
)
    requires
        old(slot)@ is Some,
        !old(slot).framebuffers().dom().contains(texture),
        call_ensures(TargetSlot::<D, F>::add_framebuffer, (slot, texture, framebuffer), ()),
        after == *final(slot),
        call_ensures(TargetSlot::<D, F>::framebuffer, (&after, other), found),
        call_ensures(TargetSlot::<D, F>::size, (&after,), size),
    ensures
        other == texture ==> (found matches Some(f) && *f == framebuffer),
        other != texture ==> (found is Some <==> old(slot).framebuffers().dom().contains(other)),
        other != texture ==> (found matches Some(f) ==> *f == old(slot).framebuffers()[other]),
        size == Some(old(slot)@->0.size),
        final(slot)@->0.depth == old(slot)@->0.depth,
{
}

/// After a frame the target has the size of the surface, and a framebuffer for the texture that was
/// drawn into.
pub proof fn law_target_fits_frame<D, F>(slot: Option<TargetModel<D, F>>, draw: Draw<D, F>)
    ensures
        ({
            let after = target_after(slot, draw);
            let kept = slot is Some && slot->0.size == draw.size;
            &&& after.size == draw.size
            &&& after.framebuffers.dom().contains(draw.texture)
            &&& kept ==> after.depth == slot->0.depth
            &&& !kept ==> after.depth == draw.depth
            &&& kept && slot->0.framebuffers.dom().contains(draw.texture) ==> after == slot->0
            &&& !kept || !slot->0.framebuffers.dom().contains(draw.texture)
                ==> after.framebuffers[draw.texture] == draw.framebuffer
        }),
{
}

/// At first there is no target, and no framebuffer.
pub proof fn law_no_target_at_first<D, F>(
    slot: TargetSlot<D, F>,
    size: Option<(u32, u32)>,
    texture: u64,
    framebuffer: Option<&F>,
)
    requires
        call_ensures(TargetSlot::<D, F>::new, (), slot),
        call_ensures(TargetSlot::<D, F>::size, (&slot,), size),
        call_ensures(TargetSlot::<D, F>::framebuffer, (&slot, texture), framebuffer),
    ensures
        slot@ is None,
        size is None,
        framebuffer is None,
{
}

} // verus!
