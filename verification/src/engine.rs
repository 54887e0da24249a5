//! The engine of the scene editor: what it draws, and when it sends the scene to the GPU again.
use crate::bytes::buffer_bytes;
#[allow(unused_imports)]
use crate::bytes::{law_bytes_spell_words, spelled, word_bytes};
use crate::camera::OrbitCamera;
#[allow(unused_imports)]
use crate::camera::starter_limits;
use crate::frames::{BackBuffer, FrameStep, plan_frame};
#[allow(unused_imports)]
use crate::frames::planned;
use crate::pacing::count_turn;
#[allow(unused_imports)]
use crate::pacing::counted;
use crate::instance::{INSTANCE_SIZE, Instance, ground, words_of};
#[allow(unused_imports)]
use crate::instance::{ground_instance, instance_words, law_words_stand_in_order, stands_at};
use vstd::prelude::*;

verus! {

/// How many indices the cube has.
pub const CUBE_INDEX_COUNT: u32 = 36;

/// How many instances the buffer on the GPU has room for at first.
pub const INITIAL_CAPACITY: usize = 64;

/// `n` is a power of two.
pub open spec fn power_of_two(n: int) -> bool {
    exists|k: nat| n == #[trigger] vstd::arithmetic::power2::pow2(k)
}

/// `r` is the smallest power of two that is not below `n`.
pub open spec fn next_power(n: int, r: int) -> bool {
    &&& power_of_two(r)
    &&& n <= r
    &&& forall|p: int| #[trigger] power_of_two(p) && n <= p ==> r <= p
}

/// Of two powers of two, the larger is at least twice the smaller.
proof fn lemma_powers_double(p: int, q: int)
    requires
        power_of_two(p),
        power_of_two(q),
        p < q,
    ensures
        2 * p <= q,
{
    let a = choose|k: nat| p == #[trigger] vstd::arithmetic::power2::pow2(k);
    let b = choose|k: nat| q == #[trigger] vstd::arithmetic::power2::pow2(k);
    vstd::arithmetic::power2::lemma_pow2_pos(a);
    if a > b {
        vstd::arithmetic::power2::lemma_pow2_strictly_increases(b, a);
    }
    assert(a < b);
    vstd::arithmetic::power2::lemma_pow2_unfold(a + 1);
    if a + 1 < b {
        vstd::arithmetic::power2::lemma_pow2_strictly_increases(a + 1, b);
    }
}

/// How many instances a buffer for `count` of them is made for: the smallest power of two that is
/// enough, so that a growing scene seldom needs a new one.
pub fn capacity_for(count: usize) -> (r: usize)
    requires
        count <= usize::MAX / 2,
    ensures
        next_power(count as int, r as int),
        count > 0 ==> r < 2 * count,
{
    let mut r: usize = 1;
    proof {
        vstd::arithmetic::power2::lemma2_to64();
        assert(vstd::arithmetic::power2::pow2(0) == 1);
        assert(power_of_two(1));
        assert forall|p: int| #[trigger] power_of_two(p) implies 1 <= p by {
            let k = choose|k: nat| p == #[trigger] vstd::arithmetic::power2::pow2(k);
            vstd::arithmetic::power2::lemma_pow2_pos(k);
        }
    }
    while r < count
        invariant
            count <= usize::MAX / 2,
            power_of_two(r as int),
            r >= 1,
            r == 1 || r < 2 * count,
            forall|p: int| #[trigger] power_of_two(p) && count <= p ==> r <= p,
        decreases 2 * count - r,
    {
        proof {
            let k = choose|k: nat| r == #[trigger] vstd::arithmetic::power2::pow2(k);
            vstd::arithmetic::power2::lemma_pow2_unfold(k + 1);
            assert(2 * r == vstd::arithmetic::power2::pow2(k + 1));
            assert(power_of_two(2 * r));
            assert forall|p: int| #[trigger] power_of_two(p) && count <= p implies 2 * r <= p by {
                lemma_powers_double(r as int, p);
            }
        }
        r = 2 * r;
    }
    r
}

/// The version of a scene after one more publication; the counter wraps around.
pub open spec fn next_version(version: u64) -> u64 {
    if version == u64::MAX {
        0
    } else {
        (version + 1) as u64
    }
}

/// What the window and the render thread share.
pub struct Shared {
    pub scene: Vec<Instance>,
    pub camera: OrbitCamera,
    /// Goes up with each publication: the engine sends the instances to the GPU again only if the
    /// scene has changed.
    pub version: u64,
    /// How many frames the engine has published.
    pub frames: u64,
}

impl Shared {
    /// An empty scene, seen by the editor's camera at rest.
    pub fn new() -> (r: Shared)
        ensures
            r.scene@ == Seq::<Instance>::empty(),
            r.camera.limits == starter_limits(),
            r.camera.yaw.bits == 0x3f33_3333,
            r.camera.pitch.bits == 0x3ee6_6666,
            r.camera.distance.bits == 0x4130_0000,
            r.camera.in_bounds(),
            r.version == 0,
            r.frames == 0,
    {
        Shared { scene: Vec::new(), camera: OrbitCamera::starter(), version: 0, frames: 0 }
    }

    /// Publishes a new scene.
    pub fn publish(&mut self, instances: Vec<Instance>)
        ensures
            final(self).scene == instances,
            final(self).version == next_version(old(self).version),
            final(self).camera == old(self).camera,
            final(self).frames == old(self).frames,
            forall|engine: Engine| #[trigger]
                exchange(*final(self), engine) == exchanged(
                    exchange(*old(self), engine),
                    Some(instances@),
                ),
    {
        self.scene = instances;
        self.version = self.version.wrapping_add(1);
    }

    /// Counts a turn of the engine's thread, which leaves all else alone.
    pub fn count(&mut self, published: bool)
        ensures
            final(self).frames == counted(old(self).frames, published),
            final(self).scene == old(self).scene,
            final(self).camera == old(self).camera,
            final(self).version == old(self).version,
    {
        self.frames = count_turn(self.frames, published);
    }

    /// What an engine needs that has version `uploaded` on the GPU: a copy of the scene if it has
    /// changed since, and of all else. The window waits for no more than this copy.
    pub fn snapshot(&self, uploaded: u64) -> (r: Shared)
        ensures
            is_snapshot(r, *self, uploaded),
    {
        let mut scene: Vec<Instance> = Vec::new();
        if self.version != uploaded {
            let mut i: usize = 0;
            while i < self.scene.len()
                invariant
                    i <= self.scene.len(),
                    scene@ == self.scene@.take(i as int),
                decreases self.scene.len() - i,
            {
                scene.push(self.scene[i]);
                assert(scene@ =~= self.scene@.take(i + 1));
                i += 1;
            }
            assert(self.scene@.take(i as int) =~= self.scene@);
        }
        Shared { scene, camera: self.camera, version: self.version, frames: self.frames }
    }
}

/// `copy` is what an engine needs of `shared` that has version `uploaded` on the GPU.
pub open spec fn is_snapshot(copy: Shared, shared: Shared, uploaded: u64) -> bool {
    &&& copy.version == shared.version
    &&& copy.camera == shared.camera
    &&& copy.frames == shared.frames
    &&& copy.scene@ == if shared.version != uploaded {
        shared.scene@
    } else {
        Seq::empty()
    }
}

/// What the engine draws for a published scene: the ground, then the objects.
pub open spec fn drawn(scene: Seq<Instance>) -> Seq<Instance> {
    seq![ground_instance()] + scene
}

/// The bytes of instances, in one of the two byte orders.
pub open spec fn holds_instances(bytes: Seq<u8>, instances: Seq<Instance>) -> bool {
    bytes == word_bytes(instance_words(instances), false) || bytes == word_bytes(
        instance_words(instances),
        true,
    )
}

/// What goes to the GPU before a frame is drawn.
pub struct Upload {
    /// The size in bytes of the buffer to make first, where the present one is too small.
    pub grow_to: Option<u64>,
    /// What is written at the start of the buffer.
    pub bytes: Vec<u8>,
}

/// What the engine does for one frame.
pub struct DrawPlan {
    pub upload: Option<Upload>,
    /// The depth buffer has to be made anew for the size.
    pub resize: bool,
    pub width: u32,
    pub height: u32,
    pub index_count: u32,
    pub instance_count: u32,
}

/// What the engine knows of the buffers that it has on the GPU.
pub struct Engine {
    /// The size in bytes of the instance buffer.
    pub buffer_size: u64,
    /// How many instances are in it.
    pub instance_count: u32,
    /// The version of the scene that is in it.
    pub uploaded: u64,
    /// The size of the depth buffer.
    pub depth: Option<(u32, u32)>,
    /// The instances that are in the buffer.
    pub on_gpu: Ghost<Seq<Instance>>,
}

impl Engine {
    /// All the instances that are drawn are in the buffer.
    pub open spec fn wf(self) -> bool {
        &&& 40 * self.instance_count <= self.buffer_size
        &&& self.instance_count == self.on_gpu@.len() % 0x1_0000_0000
    }

    /// An engine that has uploaded nothing, with room for 64 instances.
    pub fn new() -> (r: Engine)
        ensures
            r.wf(),
            r.buffer_size == 2560,
            r.instance_count == 0,
            r.uploaded == u64::MAX,
            r.depth is None,
            r.on_gpu@ == Seq::<Instance>::empty(),
            forall|shared: Shared|
                shared.scene@ == Seq::<Instance>::empty() && shared.version == 0
                    ==> #[trigger] exchange(shared, r) == at_start(),
    {
        Engine {
            buffer_size: (INITIAL_CAPACITY * INSTANCE_SIZE) as u64,
            instance_count: 0,
            uploaded: u64::MAX,
            depth: None,
            on_gpu: Ghost(Seq::empty()),
        }
    }

    /// Decides one frame. Nothing is drawn without a buffer to draw into. Otherwise the scene goes
    /// to the GPU if it has changed since it last went there, into a larger buffer if it needs
    /// one, and all of it is drawn.
    pub fn begin_frame(&mut self, shared: &Shared, back: BackBuffer) -> (r: Option<DrawPlan>)
        requires
            80 * (shared.scene.len() + 1) <= usize::MAX,
        ensures
            old(self).wf() ==> final(self).wf(),
            r is None <==> !(back is Ready),
            r is None ==> *final(self) == *old(self),
            r matches Some(plan) ==> {
                &&& planned(old(self).depth, back) == (FrameStep::Draw {
                    width: plan.width,
                    height: plan.height,
                    resize: plan.resize,
                })
                &&& back == BackBuffer::Ready(plan.width, plan.height)
                &&& plan.resize <==> old(self).depth != Some((plan.width, plan.height))
                &&& final(self).depth == Some((plan.width, plan.height))
                &&& plan.index_count == 36
                &&& plan.instance_count == final(self).instance_count
                &&& exchange(*shared, *final(self)) == exchanged(
                    exchange(*shared, *old(self)),
                    None,
                )
                &&& match plan.upload {
                    None => {
                        &&& shared.version == old(self).uploaded
                        &&& final(self).buffer_size == old(self).buffer_size
                        &&& final(self).instance_count == old(self).instance_count
                    },
                    Some(upload) => {
                        let needed = 40 * (shared.scene.len() + 1);
                        &&& shared.version != old(self).uploaded
                        &&& final(self).on_gpu@ == drawn(shared.scene@)
                        &&& holds_instances(upload.bytes@, final(self).on_gpu@)
                        &&& final(self).instance_count == (shared.scene.len() + 1) % 0x1_0000_0000
                        &&& match upload.grow_to {
                            Some(size) => {
                                &&& old(self).buffer_size < needed
                                &&& final(self).buffer_size == size
                                &&& size % 40 == 0
                                &&& next_power(shared.scene.len() + 1, size as int / 40)
                            },
                            None => old(self).buffer_size >= needed && final(self).buffer_size
                                == old(self).buffer_size,
                        }
                    },
                }
            },
    {
        match plan_frame(self.depth, back) {
            FrameStep::Skip => None,
            FrameStep::Draw { width, height, resize } => {
                let upload = if shared.version != self.uploaded {
                    Some(self.upload(shared))
                } else {
                    None
                };
                self.depth = Some((width, height));
                Some(
                    DrawPlan {
                        upload,
                        resize,
                        width,
                        height,
                        index_count: CUBE_INDEX_COUNT,
                        instance_count: self.instance_count,
                    },
                )
            },
        }
    }

    /// Sends the scene to the GPU.
    fn upload(&mut self, shared: &Shared) -> (r: Upload)
        requires
            80 * (shared.scene.len() + 1) <= usize::MAX,
        ensures
            holds_instances(r.bytes@, drawn(shared.scene@)),
            final(self).on_gpu@ == drawn(shared.scene@),
            final(self).uploaded == shared.version,
            final(self).depth == old(self).depth,
            final(self).instance_count == (shared.scene.len() + 1) % 0x1_0000_0000,
            match r.grow_to {
                Some(size) => {
                    &&& old(self).buffer_size < 40 * (shared.scene.len() + 1)
                    &&& final(self).buffer_size == size
                    &&& size % 40 == 0
                    &&& next_power(shared.scene.len() + 1, size as int / 40)
                },
                None => old(self).buffer_size >= 40 * (shared.scene.len() + 1) && final(
                    self).buffer_size == old(self).buffer_size,
            },
    {
        let mut instances: Vec<Instance> = Vec::new();
        instances.push(ground());
        let mut i: usize = 0;
        while i < shared.scene.len()
            invariant
                i <= shared.scene.len(),
                instances@ == drawn(shared.scene@.take(i as int)),
            decreases shared.scene.len() - i,
        {
            instances.push(shared.scene[i]);
            assert(instances@ =~= drawn(shared.scene@.take(i + 1)));
            i += 1;
        }
        assert(shared.scene@.take(i as int) =~= shared.scene@);
        let count: usize = instances.len();
        let bytes: Vec<u8> = buffer_bytes(&words_of(&instances));
        let grow_to: Option<u64> = if self.buffer_size < bytes.len() as u64 {
            let capacity: usize = capacity_for(count);
            let size: u64 = (capacity * INSTANCE_SIZE) as u64;
            self.buffer_size = size;
            Some(size)
        } else {
            None
        };
        self.instance_count = (count as u64 % 0x1_0000_0000) as u32;
        self.uploaded = shared.version;
        self.on_gpu = Ghost(drawn(shared.scene@));
        Upload { grow_to, bytes }
    }
}

/// The scene that the window has published and the one that the GPU has, with their versions.
#[verifier::ext_equal]
pub struct Exchange {
    pub scene: Seq<Instance>,
    pub version: u64,
    pub on_gpu: Seq<Instance>,
    pub uploaded: u64,
}

/// The exchange between a window and its engine.
pub open spec fn exchange(shared: Shared, engine: Engine) -> Exchange {
    Exchange {
        scene: shared.scene@,
        version: shared.version,
        on_gpu: engine.on_gpu@,
        uploaded: engine.uploaded,
    }
}

/// An engine that draws from a snapshot puts on the GPU what it would put there from the shared
/// state itself.
pub proof fn law_snapshot_is_enough(shared: Shared, copy: Shared, engine: Engine)
    requires
        is_snapshot(copy, shared, engine.uploaded),
    ensures
        exchanged(exchange(copy, engine), None).on_gpu == exchanged(
            exchange(shared, engine),
            None,
        ).on_gpu,
        exchanged(exchange(copy, engine), None).uploaded == exchanged(
            exchange(shared, engine),
            None,
        ).uploaded,
{
}

/// Before anything is published or drawn.
pub open spec fn at_start() -> Exchange {
    Exchange { scene: Seq::empty(), version: 0, on_gpu: Seq::empty(), uploaded: u64::MAX }
}

/// After the window has published a scene, or the engine has drawn a frame.
pub open spec fn exchanged(before: Exchange, published: Option<Seq<Instance>>) -> Exchange {
    match published {
        Some(scene) => Exchange { scene, version: next_version(before.version), ..before },
        None => if before.version != before.uploaded {
            Exchange { on_gpu: drawn(before.scene), uploaded: before.version, ..before }
        } else {
            before
        },
    }
}

/// After publications and frames in some order.
pub open spec fn exchanged_all(events: Seq<Option<Seq<Instance>>>) -> Exchange
    decreases events.len(),
{
    if events.len() == 0 {
        at_start()
    } else {
        exchanged(exchanged_all(events.drop_last()), events.last())
    }
}

/// The version counts the publications, and the GPU has the scene of its version.
proof fn lemma_exchange(events: Seq<Option<Seq<Instance>>>)
    requires
        events.len() < u64::MAX,
    ensures
        exchanged_all(events).version <= events.len(),
        exchanged_all(events).uploaded == u64::MAX || exchanged_all(events).uploaded
            <= exchanged_all(events).version,
        exchanged_all(events).uploaded == exchanged_all(events).version ==> exchanged_all(
            events,
        ).on_gpu == drawn(exchanged_all(events).scene),
    decreases events.len(),
{
    if events.len() > 0 {
        lemma_exchange(events.drop_last());
    }
}

/// Whatever was published before a frame, that frame draws the ground and the last published
/// scene, and it sends the scene only if that was not on the GPU yet. (The version counter does
/// not come round in less than 2^64 - 2 events.)
pub proof fn law_frame_draws_last_published(events: Seq<Option<Seq<Instance>>>)
    requires
        events.len() + 1 < u64::MAX,
    ensures
        ({
            let before = exchanged_all(events);
            let after = exchanged(before, None);
            &&& after.on_gpu == drawn(before.scene)
            &&& after.uploaded == after.version
            &&& exchanged(after, None) == after
        }),
        forall|scene: Seq<Instance>|
            ({
                let published = #[trigger] exchanged(exchanged_all(events), Some(scene));
                published.version != published.uploaded
            }),
{
    lemma_exchange(events);
}

/// The buffer only ever grows, and a buffer that was made for a scene has room for all of it.
pub proof fn law_buffer_has_room(size: int, count: int, grown: int)
    requires
        size < 40 * count,
        grown % 40 == 0,
        next_power(count, grown / 40),
    ensures
        grown >= 40 * count,
        grown > size,
{
}

/// The engine draws exactly if it has a buffer to draw into, at the size of that buffer. It makes
/// the depth buffer anew exactly if there is none of that size, larger or smaller, and has one of
/// that size afterwards. Without a buffer nothing changes.
pub proof fn law_depth_follows_buffer(
    engine: &mut Engine,
    shared: Shared,
    back: BackBuffer,
    plan: Option<DrawPlan>,
)
    requires
        80 * (shared.scene.len() + 1) <= usize::MAX,
        call_ensures(Engine::begin_frame, (engine, &shared, back), plan),
    ensures
        match back {
            BackBuffer::Ready(width, height) => {
                &&& plan matches Some(plan) && {
                    &&& plan.width == width
                    &&& plan.height == height
                    &&& match old(engine).depth {
                        Some((w, h)) => plan.resize <==> w < width || width < w || h < height
                            || height < h,
                        None => plan.resize,
                    }
                }
                &&& final(engine).depth == Some((width, height))
            },
            _ => plan is None && *final(engine) == *old(engine),
        },
{
}

/// What is drawn is the ground first, and then every object of the scene, once and in order.
pub proof fn law_ground_then_objects(scene: Seq<Instance>, i: int)
    requires
        0 <= i < scene.len(),
    ensures
        drawn(scene).len() == scene.len() + 1,
        drawn(scene)[0] == ground_instance(),
        drawn(scene)[i + 1] == scene[i],
{
}

/// The words that are sent for a scene are those of the ground, and behind them those of each
/// object.
pub proof fn law_scene_words_stand_in_order(scene: Seq<Instance>, i: int)
    requires
        0 <= i < scene.len(),
    ensures
        instance_words(drawn(scene)).len() == 10 * (scene.len() + 1),
        stands_at(instance_words(drawn(scene)), 0, ground_instance()),
        stands_at(instance_words(drawn(scene)), i + 1, scene[i]),
{
    law_words_stand_in_order(drawn(scene), 0);
    law_words_stand_in_order(drawn(scene), i + 1);
}

/// An engine that has not the published version on the GPU sends all of it. It draws as many
/// instances as it sends, and the buffer has room for them. An engine that has that version sends
/// nothing, and draws as many as before.
pub proof fn law_frame_sends_every_object(
    engine: &mut Engine,
    shared: Shared,
    back: BackBuffer,
    plan: DrawPlan,
)
    requires
        80 * (shared.scene.len() + 1) <= usize::MAX,
        call_ensures(Engine::begin_frame, (engine, &shared, back), Some(plan)),
    ensures
        plan.upload is Some <==> shared.version != old(engine).uploaded,
        plan.index_count == 36,
        plan.instance_count == final(engine).instance_count,
        plan.upload is None ==> {
            &&& final(engine).instance_count == old(engine).instance_count
            &&& final(engine).buffer_size == old(engine).buffer_size
            &&& final(engine).on_gpu@ == old(engine).on_gpu@
        },
        plan.upload matches Some(upload) ==> {
            &&& spelled(upload.bytes@, instance_words(drawn(shared.scene@)), false) || spelled(
                upload.bytes@,
                instance_words(drawn(shared.scene@)),
                true,
            )
            &&& upload.bytes.len() == 40 * (shared.scene.len() + 1)
            &&& upload.bytes.len() <= final(engine).buffer_size
            &&& final(engine).buffer_size >= old(engine).buffer_size
            &&& shared.scene.len() + 1 < 0x1_0000_0000 ==> plan.instance_count
                == shared.scene.len() + 1
            &&& upload.grow_to is Some <==> old(engine).buffer_size < 40 * (shared.scene.len() + 1)
            &&& upload.grow_to is None ==> final(engine).buffer_size == old(engine).buffer_size
            &&& upload.grow_to matches Some(size) ==> final(engine).buffer_size == size && size
                < 80 * (shared.scene.len() + 1)
        },
        final(engine).uploaded == shared.version,
{
    let words = instance_words(drawn(shared.scene@));
    law_bytes_spell_words(words, false);
    law_bytes_spell_words(words, true);
    if let Some(upload) = plan.upload {
        if let Some(size) = upload.grow_to {
            lemma_next_power_is_close(shared.scene.len() + 1, size as int / 40);
        }
    }
}

/// The smallest power of two that is enough is less than twice what is needed.
proof fn lemma_next_power_is_close(n: int, r: int)
    requires
        n > 0,
        next_power(n, r),
    ensures
        r < 2 * n,
{
    let k = choose|k: nat| r == #[trigger] vstd::arithmetic::power2::pow2(k);
    vstd::arithmetic::power2::lemma2_to64();
    if k > 0 {
        vstd::arithmetic::power2::lemma_pow2_unfold(k);
        let half = vstd::arithmetic::power2::pow2((k - 1) as nat) as int;
        assert(power_of_two(half));
    }
}

/// The first frame of a new engine sends the scene, empty as it may be: the ground is drawn, from
/// the editor's camera at rest, out of a buffer with room for 64 instances.
pub proof fn law_first_frame_sends(
    shared: Shared,
    engine: Engine,
    camera: OrbitCamera,
    started: &mut Engine,
    back: BackBuffer,
    plan: DrawPlan,
)
    requires
        call_ensures(Shared::new, (), shared),
        call_ensures(Engine::new, (), engine),
        call_ensures(OrbitCamera::starter, (), camera),
        *old(started) == engine,
        call_ensures(Engine::begin_frame, (started, &shared, back), Some(plan)),
    ensures
        plan.upload is Some,
        plan.resize,
        plan.instance_count == 1,
        final(started).on_gpu@ == seq![ground_instance()],
        shared.frames == 0 && shared.scene.len() == 0,
        shared.camera == camera,
        engine.buffer_size == 64 * 40,
        plan.upload->0.grow_to is None,
{
    assert(drawn(shared.scene@) =~= seq![ground_instance()]);
}

/// Publishing replaces the scene and gives it another version, which comes right after the one
/// before it, and leaves the camera and the count of frames alone. Two publications in a row have
/// versions of their own.
pub proof fn law_publication_has_new_version(
    first: &mut Shared,
    second: &mut Shared,
    scene: Vec<Instance>,
    next: Vec<Instance>,
)
    requires
        call_ensures(Shared::publish, (first, scene), ()),
        *old(second) == *final(first),
        call_ensures(Shared::publish, (second, next), ()),
    ensures
        final(first).scene == scene,
        final(second).scene == next,
        final(first).version != old(first).version,
        final(second).version != final(first).version,
        final(second).version != old(first).version,
        old(first).version < u64::MAX ==> final(first).version == old(first).version + 1,
        final(first).camera == old(first).camera,
        final(first).frames == old(first).frames,
{
}

/// A snapshot has all that an engine needs: the camera, the version, and the scene unless the
/// engine has it already. Drawing from it sends what drawing from the shared state would send.
pub proof fn law_snapshot_has_what_is_needed(shared: Shared, uploaded: u64, copy: Shared)
    requires
        call_ensures(Shared::snapshot, (&shared, uploaded), copy),
    ensures
        copy.camera == shared.camera,
        copy.version == shared.version,
        copy.frames == shared.frames,
        shared.version != uploaded ==> copy.scene@ == shared.scene@,
        shared.version == uploaded ==> copy.scene.len() == 0,
{
}

/// Counting a turn adds one to the frames exactly if the turn has published one, up to where the
/// counter comes round, and leaves all else alone.
pub proof fn law_turn_counts_published(shared: &mut Shared, published: bool)
    requires
        call_ensures(Shared::count, (shared, published), ()),
    ensures
        !published ==> final(shared).frames == old(shared).frames,
        published && old(shared).frames < u64::MAX ==> final(shared).frames == old(shared).frames
            + 1,
        final(shared).scene == old(shared).scene,
        final(shared).camera == old(shared).camera,
        final(shared).version == old(shared).version,
{
}

/// The capacity of a buffer is a power of two that is enough, and half of it would not be.
pub proof fn law_capacity_is_tight(count: usize, capacity: usize)
    requires
        count <= usize::MAX / 2,
        call_ensures(capacity_for, (count,), capacity),
    ensures
        exists|k: nat| capacity == #[trigger] vstd::arithmetic::power2::pow2(k),
        count <= capacity,
        capacity == 1 || capacity < 2 * count,
{
    vstd::arithmetic::power2::lemma2_to64();
    assert(power_of_two(capacity as int));
    let k = choose|k: nat| capacity == #[trigger] vstd::arithmetic::power2::pow2(k);
    vstd::arithmetic::power2::lemma_pow2_pos(k);
    assert(vstd::arithmetic::power2::pow2(0) == 1);
    assert(power_of_two(1));
}

} // verus!
