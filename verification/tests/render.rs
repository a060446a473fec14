use lyzah::fixed::FX_ONE;
use lyzah::loader::Loader;
use lyzah::matrix::Mat4;
use lyzah::renderer::{
    RenderRecovery, Renderer, SurfaceError, SurfaceStatus, WindowSize,
};
use lyzah::sprite::Sprite;

fn png_bytes(w: u32, h: u32, pixel: [u8; 4]) -> Vec<u8> {
    let img = image::RgbaImage::from_pixel(w, h, image::Rgba(pixel));
    let mut out = std::io::Cursor::new(Vec::new());
    img.write_to(&mut out, image::ImageOutputFormat::Png).unwrap();
    out.into_inner()
}

#[test]
fn two_sprites_of_one_texture_form_one_batch() {
    let mut loader = Loader::new();
    let id = loader.load_image("tile", &png_bytes(64, 64, [1, 2, 3, 255]));
    assert_eq!(id, 1);

    let mut a = Sprite::new(1);
    a.set_position(0, 0);
    let mut b = Sprite::new(1);
    b.set_position(10 * FX_ONE, 0);
    let sprites = vec![a, b];

    let mut renderer = Renderer::new(800, 600);
    let plan = renderer
        .render(&sprites, &loader, SurfaceStatus::Acquired)
        .unwrap();

    // One cache entry for the texture, uploaded this frame.
    assert_eq!(plan.uploads, vec![1]);
    assert_eq!(renderer.render_texture_data.len(), 1);
    assert_eq!(renderer.render_texture_data[0].0, 1);
    assert_eq!(renderer.render_texture_data[0].1.num_indices, 6);

    // One draw call covering both instances.
    assert_eq!(plan.draws.len(), 1);
    let draw = &plan.draws[0];
    assert_eq!(draw.texture_id, 1);
    assert_eq!(draw.num_indices, 6);
    assert_eq!(draw.instances.len(), 2);
    assert_eq!(renderer.instance_buffers, vec![(1, 2)]);

    // The two matrices differ only in the translation by (10, 0, 0).
    assert_eq!(draw.instances[0], Mat4::identity());
    let expected = Mat4 { m30: 10 * FX_ONE, ..Mat4::identity() };
    assert_eq!(draw.instances[1], expected);
}

#[test]
fn the_texture_cache_persists_across_frames() {
    let mut loader = Loader::new();
    loader.load_image("tile", &png_bytes(16, 16, [1, 2, 3, 255]));
    let sprites = vec![Sprite::new(1)];
    let mut renderer = Renderer::new(800, 600);

    let first = renderer
        .render(&sprites, &loader, SurfaceStatus::Acquired)
        .unwrap();
    assert_eq!(first.uploads, vec![1]);

    // The second frame finds the entry cached and uploads nothing; the
    // per-frame instance buffers are rebuilt regardless.
    let second = renderer
        .render(&sprites, &loader, SurfaceStatus::Acquired)
        .unwrap();
    assert_eq!(second.uploads, Vec::<u32>::new());
    assert_eq!(renderer.render_texture_data.len(), 1);
    assert_eq!(second.draws.len(), 1);
    assert_eq!(renderer.instance_buffers, vec![(1, 1)]);
}

#[test]
fn unknown_texture_ids_batch_under_the_default() {
    let loader = Loader::new();
    let sprites = vec![Sprite::new(5), Sprite::new(9)];
    let mut renderer = Renderer::new(800, 600);
    let plan = renderer
        .render(&sprites, &loader, SurfaceStatus::Acquired)
        .unwrap();
    // Both unknown ids resolve to the default texture (id 0): one batch
    // of two instances, no error anywhere.
    assert_eq!(plan.uploads, vec![0]);
    assert_eq!(plan.draws.len(), 1);
    assert_eq!(plan.draws[0].texture_id, 0);
    assert_eq!(plan.draws[0].instances.len(), 2);
}

#[test]
fn distinct_textures_draw_in_first_seen_order() {
    let mut loader = Loader::new();
    loader.load_image("a", &png_bytes(8, 8, [1, 1, 1, 255]));
    loader.load_image("b", &png_bytes(4, 4, [2, 2, 2, 255]));
    let sprites = vec![Sprite::new(2), Sprite::new(1), Sprite::new(2)];
    let mut renderer = Renderer::new(800, 600);
    let plan = renderer
        .render(&sprites, &loader, SurfaceStatus::Acquired)
        .unwrap();
    assert_eq!(plan.uploads, vec![2, 1]);
    assert_eq!(plan.draws.len(), 2);
    assert_eq!(plan.draws[0].texture_id, 2);
    assert_eq!(plan.draws[0].instances.len(), 2);
    assert_eq!(plan.draws[1].texture_id, 1);
    assert_eq!(plan.draws[1].instances.len(), 1);
    assert_eq!(renderer.instance_buffers, vec![(2, 2), (1, 1)]);
}

#[test]
fn a_lost_surface_skips_the_frame_and_reconfigures() {
    let loader = Loader::new();
    let sprites = vec![Sprite::new(1)];
    let mut renderer = Renderer::new(800, 600);

    let r = renderer.render(
        &sprites, &loader, SurfaceStatus::Failed(SurfaceError::Lost));
    // The error propagates; the frame produced no draw calls and left the
    // renderer untouched.
    assert_eq!(r, Err(SurfaceError::Lost));
    assert_eq!(renderer.render_texture_data.len(), 0);
    assert_eq!(renderer.instance_buffers.len(), 0);

    // The loop's reaction to a lost surface is a resize with no new size.
    assert_eq!(
        Renderer::recovery_for(&SurfaceError::Lost),
        RenderRecovery::Reconfigure
    );
    assert!(renderer.resize(None));
    assert_eq!(renderer.config_width, 800);
    assert_eq!(renderer.config_height, 600);
}

#[test]
fn error_policy_matches_the_taxonomy() {
    assert_eq!(
        Renderer::recovery_for(&SurfaceError::OutOfMemory),
        RenderRecovery::Terminate
    );
    assert_eq!(
        Renderer::recovery_for(&SurfaceError::Timeout),
        RenderRecovery::SkipFrame
    );
    assert_eq!(
        Renderer::recovery_for(&SurfaceError::Outdated),
        RenderRecovery::SkipFrame
    );
}

#[test]
fn degenerate_surface_sizes_are_ignored() {
    let mut renderer = Renderer::new(800, 600);
    assert!(!renderer.resize(Some(WindowSize { width: 0, height: 500 })));
    assert_eq!((renderer.config_width, renderer.config_height), (800, 600));
    assert!(!renderer.resize(Some(WindowSize { width: 500, height: 0 })));
    assert_eq!((renderer.config_width, renderer.config_height), (800, 600));
    assert!(renderer.resize(Some(WindowSize { width: 1024, height: 768 })));
    assert_eq!((renderer.config_width, renderer.config_height), (1024, 768));
}
