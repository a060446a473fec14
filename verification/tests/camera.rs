use lyzah::camera::{Camera2D, CameraUniform};
use lyzah::matrix::Mat4;

#[test]
fn fresh_camera_holds_the_identity_uniform() {
    let camera = Camera2D::new();
    assert_eq!(camera.width, 0);
    assert_eq!(camera.height, 0);
    assert_eq!(camera.uniform.view_proj, Mat4::identity());
}

#[test]
fn resize_recomputes_the_view_projection() {
    let mut camera = Camera2D::new();
    assert!(camera.resize(800, 600));
    let m = camera.uniform.view_proj;
    // 2/800 and 2/600 in fixed point, truncated.
    assert_eq!(m.m00, 163);
    assert_eq!(m.m11, 218);
    // -2/200 scaled by the depth remap's one half.
    assert_eq!(m.m22, -328);
    // The z translation: the view's unit offset through the projection
    // and the remap's bias, about 0.505.
    assert_eq!(m.m32, 33096);
    assert_eq!(m.m33, lyzah::fixed::FX_ONE);
    assert_eq!(m.m30, 0);
    assert_eq!(m.m31, 0);
    assert_eq!((m.m01, m.m02, m.m03), (0, 0, 0));
    assert_eq!((m.m10, m.m12, m.m13), (0, 0, 0));
    assert_eq!((m.m20, m.m21, m.m23), (0, 0, 0));
}

#[test]
fn degenerate_resizes_are_no_ops() {
    let mut camera = Camera2D::new();
    assert!(camera.resize(800, 600));
    let before = camera;
    assert!(!camera.resize(0, 600));
    assert_eq!(camera, before);
    assert!(!camera.resize(800, 0));
    assert_eq!(camera, before);
    assert_eq!(camera.uniform.view_proj, before.uniform.view_proj);
}

#[test]
fn uniform_updates_mirror_the_given_matrix() {
    let mut uniform = CameraUniform::new();
    assert_eq!(uniform.view_proj, Mat4::identity());
    let m = Mat4 { m30: 42, ..Mat4::identity() };
    uniform.update_view_proj(m);
    assert_eq!(uniform.view_proj, m);
}
