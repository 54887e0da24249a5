use glam::Vec3;
use gpui3d::camera::{OrbitCamera, Scene};
use gpui3d::scalar::Scalar;

fn bits(x: f32) -> Scalar {
    Scalar::from_bits(x.to_bits())
}

fn value(x: Scalar) -> f32 {
    f32::from_bits(x.bits)
}

fn orbit(camera: &mut OrbitCamera, dx: f32, dy: f32) {
    let (yaw, pitch) = (value(camera.yaw), value(camera.pitch));
    camera.orbit(bits(yaw - dx * 0.01), bits(pitch + dy * 0.01));
}

fn zoom(camera: &mut OrbitCamera, dy: f32) {
    let distance = value(camera.distance);
    camera.zoom(bits(distance * (-dy * 0.002).exp()));
}

fn eye(camera: &OrbitCamera) -> Vec3 {
    let (sy, cy) = value(camera.yaw).sin_cos();
    let (sp, cp) = value(camera.pitch).sin_cos();
    Vec3::new(sy * cp, sp, cy * cp) * value(camera.distance)
}

#[test]
fn la_camera_reste_dans_ses_bornes() {
    let mut cam = OrbitCamera::default();
    orbit(&mut cam, 0.0, 10_000.0);
    assert_eq!(value(cam.pitch), 1.5, "pas de passage par le pôle");
    zoom(&mut cam, -1e6);
    assert_eq!(value(cam.distance), 20.0);
    zoom(&mut cam, 1e6);
    assert_eq!(value(cam.distance), 1.2);
    assert!((eye(&cam).length() - 1.2).abs() < 1e-5, "l'œil est à `distance` de l'origine");
}

#[test]
fn cameras_start_at_rest() {
    let demo = OrbitCamera::default();
    assert_eq!((value(demo.yaw), value(demo.pitch), value(demo.distance)), (0.6, 0.4, 3.0));
    assert_eq!((value(demo.limits.pitch_min), value(demo.limits.pitch_max)), (-1.5, 1.5));
    assert_eq!((value(demo.limits.distance_min), value(demo.limits.distance_max)), (1.2, 20.0));
    let editor = OrbitCamera::starter();
    assert_eq!((value(editor.yaw), value(editor.pitch), value(editor.distance)), (0.7, 0.45, 11.0));
    assert_eq!((value(editor.limits.pitch_min), value(editor.limits.pitch_max)), (0.05, 1.5));
    assert_eq!((value(editor.limits.distance_min), value(editor.limits.distance_max)), (3.0, 40.0));
}

#[test]
fn editor_camera_stays_above_the_ground() {
    let mut cam = OrbitCamera::starter();
    orbit(&mut cam, 3.0, -10_000.0);
    assert_eq!(value(cam.pitch), 0.05);
    assert_eq!(value(cam.yaw), 0.7 - 3.0 * 0.01);
    zoom(&mut cam, 1e6);
    assert_eq!(value(cam.distance), 3.0);
    zoom(&mut cam, -1e6);
    assert_eq!(value(cam.distance), 40.0);
}

#[test]
fn small_gestures_are_not_clamped() {
    let mut cam = OrbitCamera::default();
    orbit(&mut cam, 10.0, 20.0);
    assert_eq!(value(cam.yaw), 0.6 - 10.0 * 0.01);
    assert_eq!(value(cam.pitch), 0.4 + 20.0 * 0.01);
    zoom(&mut cam, 100.0);
    assert_eq!(value(cam.distance), 3.0 * (-0.2f32).exp());
}

#[test]
fn orbit_and_zoom_commute() {
    let (mut a, mut b) = (OrbitCamera::default(), OrbitCamera::default());
    a.orbit(bits(9.0), bits(9.0));
    a.zoom(bits(99.0));
    b.zoom(bits(99.0));
    b.orbit(bits(9.0), bits(9.0));
    assert_eq!(a, b);
}

#[test]
fn frozen_time_takes_the_place_of_elapsed_time() {
    let cam = OrbitCamera::default();
    assert_eq!(value(Scene::at(cam, None, bits(7.25)).time), 7.25);
    let frozen = Scene::at(cam, Some(bits(1.3)), bits(7.25));
    assert_eq!(value(frozen.time), 1.3);
    assert_eq!(frozen, Scene::at(cam, Some(bits(1.3)), bits(9.0)));
}

#[test]
fn aspect_never_divides_by_zero() {
    assert_eq!(Scene::aspect(1280, 800), (1280, 800));
    assert_eq!(Scene::aspect(1280, 0), (1280, 1));
}
