//! Floating-point properties of the transform math the renderer shell
//! performs on top of the library's decisions: these cannot live in the
//! verified core, so they are checked here against the same math library
//! the shell uses.

use cgmath::{Angle, InnerSpace, Matrix4, Point3, Rad, Rotation3, SquareMatrix, Vector3, Vector4};

/// The clip-space correction pre-multiplied onto the perspective matrix:
/// the math library assumes a [-1, 1] depth range, the graphics API a
/// [0, 1] one.
fn opengl_to_wgpu() -> Matrix4<f32> {
    Matrix4::new(
        1.0, 0.0, 0.0, 0.0, //
        0.0, 1.0, 0.0, 0.0, //
        0.0, 0.0, 0.5, 0.0, //
        0.0, 0.0, 0.5, 1.0,
    )
}

fn view_matrix(position: Point3<f32>, yaw: Rad<f32>, pitch: Rad<f32>) -> Matrix4<f32> {
    let (sin_pitch, cos_pitch) = pitch.sin_cos();
    let (sin_yaw, cos_yaw) = yaw.sin_cos();
    Matrix4::look_to_rh(
        position,
        Vector3::new(cos_pitch * cos_yaw, sin_pitch, cos_pitch * sin_yaw).normalize(),
        Vector3::unit_y(),
    )
}

fn projection_matrix(aspect: f32, fovy_deg: f32, znear: f32, zfar: f32) -> Matrix4<f32> {
    opengl_to_wgpu() * cgmath::perspective(cgmath::Deg(fovy_deg), aspect, znear, zfar)
}

#[test]
fn view_projection_round_trips_points() {
    // For camera poses within the pitch clamp bounds, the view-projection
    // composition is invertible: a point pushed through it and its inverse
    // comes back within floating-point tolerance.
    let poses: &[(Point3<f32>, f32, f32)] = &[
        (Point3::new(0.0, 5.0, 10.0), -90.0, -20.0),
        (Point3::new(3.0, 1.0, -4.0), 37.0, 80.0),
        (Point3::new(-8.0, 0.5, 2.0), 180.0, -80.0),
        (Point3::new(0.0, 0.0, 0.0), 45.0, 0.0),
    ];
    let points: &[Vector4<f32>] = &[
        Vector4::new(0.0, 0.0, 0.0, 1.0),
        Vector4::new(1.5, -2.0, 3.0, 1.0),
        Vector4::new(-10.0, 4.0, 7.5, 1.0),
    ];
    for &(position, yaw_deg, pitch_deg) in poses {
        let view = view_matrix(
            position,
            Rad(yaw_deg.to_radians()),
            Rad(pitch_deg.to_radians()),
        );
        let proj = projection_matrix(800.0 / 600.0, 45.0, 0.1, 100.0);
        let vp = proj * view;
        let inv = vp.invert().expect("view-projection must be invertible");
        for &p in points {
            let q = inv * (vp * p);
            let q = q / q.w;
            for i in 0..3 {
                assert!((q[i] - p[i]).abs() < 1e-3, "pose {:?}, point {:?}: got {:?}", position, p, q);
            }
        }
    }
}

#[test]
fn origin_projects_inside_device_depth_range() {
    // The documented startup pose: position (0, 5, 10), yaw -90 degrees,
    // pitch -20 degrees, 45 degree vertical field of view, 0.1/100 clip
    // planes. The world origin must land inside the normalized device depth
    // range [0, 1].
    let view = view_matrix(
        Point3::new(0.0, 5.0, 10.0),
        Rad((-90.0f32).to_radians()),
        Rad((-20.0f32).to_radians()),
    );
    let proj = projection_matrix(800.0 / 600.0, 45.0, 0.1, 100.0);
    let clip = proj * view * Vector4::new(0.0, 0.0, 0.0, 1.0);
    assert!(clip.w > 0.0);
    let depth = clip.z / clip.w;
    assert!((0.0..=1.0).contains(&depth), "depth {} outside [0, 1]", depth);
}

#[test]
fn light_orbit_preserves_distance_from_origin() {
    // The per-tick light animation is a pure rotation about the Y axis, so
    // the position's magnitude is invariant across arbitrarily many ticks.
    let initial = Vector3::new(2.0f32, 2.0, 2.0);
    let expected = initial.magnitude();
    let step = cgmath::Quaternion::from_axis_angle(Vector3::unit_y(), cgmath::Deg(1.0));
    let mut position = initial;
    for tick in 0..1000 {
        position = step * position;
        let magnitude = position.magnitude();
        assert!(
            (magnitude - expected).abs() < 1e-2,
            "tick {}: magnitude drifted to {}",
            tick,
            magnitude
        );
    }
    // The y component never moves either: the orbit stays in its plane.
    assert!((position.y - 2.0).abs() < 1e-3);
}
