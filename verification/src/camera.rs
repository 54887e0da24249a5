//! The orbit camera and the scene that it looks at.
use crate::scalar::Scalar;
use vstd::prelude::*;

verus! {

/// The interval that each clamped quantity of a camera keeps to.
#[derive(Clone, Copy, Debug, PartialEq, Eq, Structural)]
pub struct CameraLimits {
    pub pitch_min: Scalar,
    pub pitch_max: Scalar,
    pub distance_min: Scalar,
    pub distance_max: Scalar,
}

impl CameraLimits {
    /// Both intervals have numbers for ends, and are not empty.
    pub open spec fn wf(self) -> bool {
        &&& !self.pitch_min.nan()
        &&& !self.pitch_max.nan()
        &&& self.pitch_min.key() <= self.pitch_max.key()
        &&& !self.distance_min.nan()
        &&& !self.distance_max.nan()
        &&& self.distance_min.key() <= self.distance_max.key()
    }
}

/// The limits of the demo: pitch from -1.5 to 1.5, short of both poles, distance from 1.2 to 20.
pub open spec fn shell_limits() -> CameraLimits {
    CameraLimits {
        pitch_min: Scalar { bits: 0xbfc0_0000 },
        pitch_max: Scalar { bits: 0x3fc0_0000 },
        distance_min: Scalar { bits: 0x3f99_999a },
        distance_max: Scalar { bits: 0x41a0_0000 },
    }
}

/// The limits of the scene editor: pitch from 0.05 to 1.5, above the ground, distance from 3
/// to 40.
pub open spec fn starter_limits() -> CameraLimits {
    CameraLimits {
        pitch_min: Scalar { bits: 0x3d4c_cccd },
        pitch_max: Scalar { bits: 0x3fc0_0000 },
        distance_min: Scalar { bits: 0x4040_0000 },
        distance_max: Scalar { bits: 0x4220_0000 },
    }
}

/// A camera that looks at the origin from `distance`, turned by `yaw` and raised by `pitch`.
#[derive(Clone, Copy, Debug, PartialEq, Eq, Structural)]
pub struct OrbitCamera {
    pub yaw: Scalar,
    pub pitch: Scalar,
    pub distance: Scalar,
    pub limits: CameraLimits,
}

impl OrbitCamera {
    /// The pitch and the distance are numbers within the camera's limits.
    pub open spec fn in_bounds(self) -> bool {
        &&& self.limits.wf()
        &&& self.pitch.between(self.limits.pitch_min, self.limits.pitch_max)
        &&& self.distance.between(self.limits.distance_min, self.limits.distance_max)
    }

    /// The camera that the pointer has turned to `yaw` and `pitch`.
    pub open spec fn orbited(self, yaw: Scalar, pitch: Scalar) -> OrbitCamera {
        OrbitCamera {
            yaw,
            pitch: pitch.clamped(self.limits.pitch_min, self.limits.pitch_max),
            ..self
        }
    }

    /// The camera that the wheel has moved to `distance`.
    pub open spec fn zoomed(self, distance: Scalar) -> OrbitCamera {
        OrbitCamera {
            distance: distance.clamped(self.limits.distance_min, self.limits.distance_max),
            ..self
        }
    }

    /// The camera of the scene editor at rest: yaw 0.7, pitch 0.45, distance 11.
    pub fn starter() -> (r: OrbitCamera)
        ensures
            r.limits == starter_limits(),
            r.yaw.bits == 0x3f33_3333,
            r.pitch.bits == 0x3ee6_6666,
            r.distance.bits == 0x4130_0000,
            r.in_bounds(),
    {
        OrbitCamera {
            yaw: Scalar { bits: 0x3f33_3333 },
            pitch: Scalar { bits: 0x3ee6_6666 },
            distance: Scalar { bits: 0x4130_0000 },
            limits: CameraLimits {
                pitch_min: Scalar { bits: 0x3d4c_cccd },
                pitch_max: Scalar { bits: 0x3fc0_0000 },
                distance_min: Scalar { bits: 0x4040_0000 },
                distance_max: Scalar { bits: 0x4220_0000 },
            },
        }
    }

    /// Turns the camera to `yaw` and raises it to `pitch`, which is clamped. A drag of `(dx, dy)`
    /// pixels asks for `yaw - dx * 0.01` and `pitch + dy * 0.01`.
    pub fn orbit(&mut self, yaw: Scalar, pitch: Scalar)
        requires
            old(self).limits.wf(),
        ensures
            *final(self) == old(self).orbited(yaw, pitch),
            old(self).in_bounds() && !pitch.nan() ==> final(self).in_bounds(),
            final(self).yaw == yaw,
            pitch.between(old(self).limits.pitch_min, old(self).limits.pitch_max)
                ==> final(self).pitch == pitch,
    {
        self.yaw = yaw;
        self.pitch = pitch.clamp(self.limits.pitch_min, self.limits.pitch_max);
    }

    /// Moves the camera to `distance`, which is clamped. A wheel step of `dy` pixels asks for
    /// `distance * exp(-dy * 0.002)`.
    pub fn zoom(&mut self, distance: Scalar)
        requires
            old(self).limits.wf(),
        ensures
            *final(self) == old(self).zoomed(distance),
            old(self).in_bounds() && !distance.nan() ==> final(self).in_bounds(),
            distance.between(old(self).limits.distance_min, old(self).limits.distance_max)
                ==> final(self).distance == distance,
    {
        self.distance = distance.clamp(self.limits.distance_min, self.limits.distance_max);
    }
}

impl Default for OrbitCamera {
    /// The camera of the demo at rest: yaw 0.6, pitch 0.4, distance 3.
    fn default() -> (r: OrbitCamera)
        ensures
            r.limits == shell_limits(),
            r.yaw.bits == 0x3f19_999a,
            r.pitch.bits == 0x3ecc_cccd,
            r.distance.bits == 0x4040_0000,
            r.in_bounds(),
    {
        OrbitCamera {
            yaw: Scalar { bits: 0x3f19_999a },
            pitch: Scalar { bits: 0x3ecc_cccd },
            distance: Scalar { bits: 0x4040_0000 },
            limits: CameraLimits {
                pitch_min: Scalar { bits: 0xbfc0_0000 },
                pitch_max: Scalar { bits: 0x3fc0_0000 },
                distance_min: Scalar { bits: 0x3f99_999a },
                distance_max: Scalar { bits: 0x41a0_0000 },
            },
        }
    }
}

/// What a user does to a camera.
pub enum CameraMove {
    Orbit(Scalar, Scalar),
    Zoom(Scalar),
}

/// The camera after one move.
pub open spec fn moved(camera: OrbitCamera, step: CameraMove) -> OrbitCamera {
    match step {
        CameraMove::Orbit(yaw, pitch) => camera.orbited(yaw, pitch),
        CameraMove::Zoom(distance) => camera.zoomed(distance),
    }
}

/// The camera after all moves, in order.
pub open spec fn after(camera: OrbitCamera, steps: Seq<CameraMove>) -> OrbitCamera
    decreases steps.len(),
{
    if steps.len() == 0 {
        camera
    } else {
        moved(after(camera, steps.drop_last()), steps.last())
    }
}

/// The move asks for a number where the camera clamps.
pub open spec fn numeric(step: CameraMove) -> bool {
    match step {
        CameraMove::Orbit(_, pitch) => !pitch.nan(),
        CameraMove::Zoom(distance) => !distance.nan(),
    }
}

/// The camera stays within its bounds, whatever is done to it.
pub proof fn law_camera_stays_in_bounds(camera: OrbitCamera, steps: Seq<CameraMove>)
    requires
        camera.in_bounds(),
        forall|i: int| 0 <= i < steps.len() ==> numeric(#[trigger] steps[i]),
    ensures
        after(camera, steps).in_bounds(),
        after(camera, steps).limits == camera.limits,
    decreases steps.len(),
{
    if steps.len() > 0 {
        assert forall|i: int| 0 <= i < steps.drop_last().len() implies numeric(
            #[trigger] steps.drop_last()[i],
        ) by {
            assert(steps.drop_last()[i] == steps[i]);
        }
        law_camera_stays_in_bounds(camera, steps.drop_last());
    }
}

/// Zooming leaves the view direction alone, and orbiting leaves the distance alone.
pub proof fn law_orbit_and_zoom_are_independent(
    camera: OrbitCamera,
    yaw: Scalar,
    pitch: Scalar,
    distance: Scalar,
)
    ensures
        camera.zoomed(distance).yaw == camera.yaw,
        camera.zoomed(distance).pitch == camera.pitch,
        camera.orbited(yaw, pitch).distance == camera.distance,
        camera.orbited(yaw, pitch).zoomed(distance) == camera.zoomed(distance).orbited(yaw, pitch),
{
}

/// Zooming to a distance within the limits leaves the camera at exactly that distance; beyond a
/// limit it is that limit. Where the camera was before makes no difference, and nothing else about
/// it changes.
pub proof fn law_zoom_goes_where_asked(a: OrbitCamera, b: OrbitCamera, distance: Scalar)
    requires
        a.limits.wf(),
        b.limits == a.limits,
    ensures
        !distance.below(a.limits.distance_min) && !a.limits.distance_max.below(distance)
            ==> a.zoomed(distance).distance == distance,
        distance.below(a.limits.distance_min) ==> a.zoomed(distance).distance
            == a.limits.distance_min,
        a.limits.distance_max.below(distance) ==> a.zoomed(distance).distance
            == a.limits.distance_max,
        a.zoomed(distance).distance == b.zoomed(distance).distance,
        a.zoomed(distance) == (OrbitCamera { distance: a.zoomed(distance).distance, ..a }),
{
}

/// Orbiting turns the camera to exactly the yaw that was asked, and raises it to exactly the pitch
/// that was asked where that is within the limits; beyond a limit it is that limit. Where the
/// camera was before makes no difference, and nothing else about it changes.
pub proof fn law_orbit_goes_where_asked(
    a: OrbitCamera,
    b: OrbitCamera,
    yaw: Scalar,
    pitch: Scalar,
)
    requires
        a.limits.wf(),
        b.limits == a.limits,
    ensures
        a.orbited(yaw, pitch).yaw == yaw,
        !pitch.below(a.limits.pitch_min) && !a.limits.pitch_max.below(pitch) ==> a.orbited(
            yaw,
            pitch,
        ).pitch == pitch,
        pitch.below(a.limits.pitch_min) ==> a.orbited(yaw, pitch).pitch == a.limits.pitch_min,
        a.limits.pitch_max.below(pitch) ==> a.orbited(yaw, pitch).pitch == a.limits.pitch_max,
        a.orbited(yaw, pitch).pitch == b.orbited(yaw, pitch).pitch,
        a.orbited(yaw, pitch) == (OrbitCamera {
            yaw,
            pitch: a.orbited(yaw, pitch).pitch,
            ..a
        }),
{
}

/// The same of the operations themselves: a zoom within the limits ends at the distance asked, one
/// beyond a limit ends at the limit, and neither turns the camera.
pub proof fn law_zoom_takes_request(camera: &mut OrbitCamera, distance: Scalar)
    requires
        old(camera).limits.wf(),
        call_ensures(OrbitCamera::zoom, (camera, distance), ()),
    ensures
        ({
            let (low, high) = (old(camera).limits.distance_min, old(camera).limits.distance_max);
            &&& !distance.below(low) && !high.below(distance) ==> final(camera).distance == distance
            &&& distance.below(low) ==> final(camera).distance == low
            &&& high.below(distance) ==> final(camera).distance == high
        }),
        final(camera).yaw == old(camera).yaw,
        final(camera).pitch == old(camera).pitch,
        final(camera).limits == old(camera).limits,
{
}

/// An orbit ends at the yaw asked and, within the limits, at the pitch asked; beyond a limit it
/// ends at the limit. It leaves the distance alone.
pub proof fn law_orbit_takes_request(camera: &mut OrbitCamera, yaw: Scalar, pitch: Scalar)
    requires
        old(camera).limits.wf(),
        call_ensures(OrbitCamera::orbit, (camera, yaw, pitch), ()),
    ensures
        ({
            let (low, high) = (old(camera).limits.pitch_min, old(camera).limits.pitch_max);
            &&& !pitch.below(low) && !high.below(pitch) ==> final(camera).pitch == pitch
            &&& pitch.below(low) ==> final(camera).pitch == low
            &&& high.below(pitch) ==> final(camera).pitch == high
        }),
        final(camera).yaw == yaw,
        final(camera).distance == old(camera).distance,
        final(camera).limits == old(camera).limits,
{
}

/// Of all that a user does, the last zoom decides the distance and the last orbit the direction:
/// what is within the limits is taken as asked.
pub proof fn law_last_move_decides(
    camera: OrbitCamera,
    steps: Seq<CameraMove>,
    yaw: Scalar,
    pitch: Scalar,
    distance: Scalar,
)
    requires
        camera.in_bounds(),
        forall|i: int| 0 <= i < steps.len() ==> numeric(#[trigger] steps[i]),
        pitch.between(camera.limits.pitch_min, camera.limits.pitch_max),
        distance.between(camera.limits.distance_min, camera.limits.distance_max),
    ensures
        ({
            let both = steps.push(CameraMove::Orbit(yaw, pitch)).push(CameraMove::Zoom(distance));
            after(camera, both) == (OrbitCamera { yaw, pitch, distance, limits: camera.limits })
        }),
        ({
            let both = steps.push(CameraMove::Zoom(distance)).push(CameraMove::Orbit(yaw, pitch));
            after(camera, both) == (OrbitCamera { yaw, pitch, distance, limits: camera.limits })
        }),
{
    law_camera_stays_in_bounds(camera, steps);
    let orbit = CameraMove::Orbit(yaw, pitch);
    let zoom = CameraMove::Zoom(distance);
    assert(steps.push(orbit).drop_last() =~= steps);
    assert(steps.push(zoom).drop_last() =~= steps);
    assert(steps.push(orbit).push(zoom).drop_last() =~= steps.push(orbit));
    assert(steps.push(zoom).push(orbit).drop_last() =~= steps.push(zoom));
    reveal_with_fuel(after, 3);
}

/// Both cameras keep short of straight up and straight down, where the view would flip: a quarter
/// turn is 1.5707964. The demo's camera goes as far below the horizon as above it, the scene
/// editor's stays above the ground. Neither reaches the origin.
pub proof fn law_limits_keep_view_upright()
    ensures
        shell_limits().wf() && starter_limits().wf(),
        shell_limits().pitch_max.below((Scalar { bits: 0x3fc9_0fdb })),
        (Scalar { bits: 0xbfc9_0fdb }).below(shell_limits().pitch_min),
        shell_limits().pitch_min.key() == -shell_limits().pitch_max.key(),
        starter_limits().pitch_max == shell_limits().pitch_max,
        (Scalar { bits: 0 }).below(starter_limits().pitch_min),
        (Scalar { bits: 0 }).below(shell_limits().distance_min),
        shell_limits().distance_min.below(starter_limits().distance_min),
        shell_limits().distance_max.below(starter_limits().distance_max),
{
}

/// What a renderer draws: the camera, and the time that the cube's rotation follows.
#[derive(Clone, Copy, Debug, PartialEq, Eq, Structural)]
pub struct Scene {
    pub camera: OrbitCamera,
    pub time: Scalar,
}

/// The scene of one frame. A frozen time, where one is given, takes the place of the time elapsed
/// since the renderer started.
pub open spec fn scene_at(camera: OrbitCamera, frozen: Option<Scalar>, elapsed: Scalar) -> Scene {
    Scene {
        camera,
        time: match frozen {
            Some(time) => time,
            None => elapsed,
        },
    }
}

/// With the time frozen, every renderer draws the same scene, whenever it draws it.
pub proof fn law_frozen_scene_is_steady(
    camera: OrbitCamera,
    frozen: Scalar,
    elapsed: Scalar,
    later: Scalar,
)
    ensures
        scene_at(camera, Some(frozen), elapsed) == scene_at(camera, Some(frozen), later),
        scene_at(camera, Some(frozen), elapsed).time == frozen,
        scene_at(camera, Some(frozen), elapsed).camera == camera,
{
}

/// With the time running, the scene follows it: each time elapsed gives its own scene, from the
/// camera as it is.
pub proof fn law_running_scene_follows_time(
    camera: OrbitCamera,
    other: OrbitCamera,
    elapsed: Scalar,
    later: Scalar,
)
    ensures
        scene_at(camera, None, elapsed).time == elapsed,
        scene_at(camera, None, elapsed) == scene_at(other, None, later) <==> camera == other
            && elapsed == later,
        scene_at(camera, None, elapsed) == scene_at(camera, Some(elapsed), later),
{
}

/// The two terms of the aspect ratio: the width over the height, which counts as one where the
/// surface has none.
pub open spec fn aspect_terms(width: u32, height: u32) -> (u32, u32) {
    (
        width,
        if height == 0 {
            1
        } else {
            height
        },
    )
}

/// A surface without height has the aspect of one that is a pixel high, and the ratio never divides
/// by zero.
pub proof fn law_no_height_counts_as_one(width: u32, height: u32)
    ensures
        aspect_terms(width, 0) == aspect_terms(width, 1),
        aspect_terms(width, height).1 > 0,
        height > 0 ==> aspect_terms(width, height) == (width, height),
{
}

impl Scene {
    /// The scene of one frame. A frozen time, where one is given, takes the place of the time
    /// elapsed since the renderer started.
    pub fn at(camera: OrbitCamera, frozen: Option<Scalar>, elapsed: Scalar) -> (r: Scene)
        ensures
            r == scene_at(camera, frozen, elapsed),
    {
        let time = match frozen {
            Some(time) => time,
            None => elapsed,
        };
        Scene { camera, time }
    }

    /// The two terms of the aspect ratio: the width over the height, which counts as one where
    /// the surface has none.
    pub fn aspect(width: u32, height: u32) -> (r: (u32, u32))
        ensures
            r == aspect_terms(width, height),
    {
        if height == 0 {
            (width, 1)
        } else {
            (width, height)
        }
    }
}

/// A frame shows the camera as it is, at the frozen time where there is one and at the elapsed time
/// otherwise, in the proportions of the surface.
pub proof fn law_scene_shows_camera(
    camera: OrbitCamera,
    frozen: Option<Scalar>,
    elapsed: Scalar,
    scene: Scene,
    width: u32,
    height: u32,
    aspect: (u32, u32),
)
    requires
        call_ensures(Scene::at, (camera, frozen, elapsed), scene),
        call_ensures(Scene::aspect, (width, height), aspect),
    ensures
        scene.camera == camera,
        frozen is None ==> scene.time == elapsed,
        frozen is Some ==> frozen == Some(scene.time),
        aspect.0 == width,
        aspect.1 > 0,
        height > 0 ==> aspect.1 == height,
        height == 0 ==> aspect.1 == 1,
{
}

/// Both cameras start at rest with room to move: within their limits, looking down on the origin
/// from one side, the scene editor's from farther away and from higher up.
pub proof fn law_cameras_start_inside(shell: OrbitCamera, starter: OrbitCamera)
    requires
        call_ensures(<OrbitCamera as Default>::default, (), shell),
        call_ensures(OrbitCamera::starter, (), starter),
    ensures
        shell.limits == shell_limits(),
        starter.limits == starter_limits(),
        shell.limits.pitch_min.below(shell.pitch) && shell.pitch.below(shell.limits.pitch_max),
        starter.limits.pitch_min.below(starter.pitch) && starter.pitch.below(
            starter.limits.pitch_max,
        ),
        shell.limits.distance_min.below(shell.distance) && shell.distance.below(
            shell.limits.distance_max,
        ),
        starter.limits.distance_min.below(starter.distance) && starter.distance.below(
            starter.limits.distance_max,
        ),
        (Scalar { bits: 0 }).below(shell.pitch) && shell.pitch.below(starter.pitch),
        shell.distance.below(starter.distance),
{
}

} // verus!
