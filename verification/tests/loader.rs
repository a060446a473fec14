use lyzah::loader::{Loader, NamedBytes, Resource};

fn png_bytes(w: u32, h: u32, pixel: [u8; 4]) -> Vec<u8> {
    let img = image::RgbaImage::from_pixel(w, h, image::Rgba(pixel));
    let mut out = std::io::Cursor::new(Vec::new());
    img.write_to(&mut out, image::ImageOutputFormat::Png).unwrap();
    out.into_inner()
}

#[test]
fn unknown_id_falls_back_to_the_default_texture() {
    let loader = Loader::new();
    let t = loader.get_texture_by_id(42);
    assert_eq!(t.id, 0);
    assert_eq!(t.size.width, 100);
    assert_eq!(t.size.height, 100);
    assert_eq!(t.size.depth_or_array_layers, 1);
    assert_eq!(t.pixels.len(), 40000);
    assert!(t.pixels.iter().all(|&b| b == 255));
}

#[test]
fn ids_are_allocated_densely_from_one() {
    let mut loader = Loader::new();
    assert_eq!(loader.get_next_valid_id("a"), 1);
    assert_eq!(loader.get_next_valid_id("b"), 2);
    assert_eq!(loader.get_resource_id("a"), 1);
    assert_eq!(loader.get_resource_id("b"), 2);
    assert_eq!(loader.get_resource_id("missing"), 0);
}

#[test]
fn the_latest_record_for_a_name_wins() {
    let mut loader = Loader::new();
    assert_eq!(loader.get_next_valid_id("a"), 1);
    assert_eq!(loader.get_next_valid_id("a"), 2);
    assert_eq!(loader.get_resource_id("a"), 2);
}

#[test]
fn a_loaded_image_is_found_under_its_id() {
    let mut loader = Loader::new();
    let bytes = png_bytes(64, 64, [10, 20, 30, 255]);
    let id = loader.load_image("tree", &bytes);
    assert_eq!(id, 1);
    assert_eq!(loader.get_resource_id("tree"), 1);
    let t = loader.get_texture_by_id(1);
    assert_eq!(t.id, 1);
    assert_eq!(t.size.width, 64);
    assert_eq!(t.size.height, 64);
    assert_eq!(t.pixels.len(), 64 * 64 * 4);
    assert_eq!(&t.pixels[0..4], &[10, 20, 30, 255]);
    assert_eq!(t.name, "tree");
    assert_eq!(t.indices, vec![0, 1, 2, 0, 2, 3]);
}

#[test]
fn undecodable_bytes_keep_the_fallback() {
    let mut loader = Loader::new();
    let id = loader.load_image("broken", &vec![1, 2, 3, 4]);
    assert_eq!(id, 1);
    // The id is reserved, but a lookup resolves to the default texture
    // rather than raising an error.
    let t = loader.get_texture_by_id(1);
    assert_eq!(t.id, 0);
    assert_eq!(t.size.width, 100);
}

#[test]
fn batches_load_in_order() {
    let mut loader = Loader::new();
    let first = loader.load_images(vec![
        NamedBytes { name: "a".to_owned(), bytes: png_bytes(8, 4, [1, 2, 3, 4]) },
        NamedBytes { name: "b".to_owned(), bytes: png_bytes(2, 2, [5, 6, 7, 8]) },
    ]);
    assert_eq!(first, 1);
    assert_eq!(loader.get_texture_by_id(1).size.width, 8);
    assert_eq!(loader.get_texture_by_id(2).size.width, 2);
    assert_eq!(loader.get_resource_id("a"), 1);
    assert_eq!(loader.get_resource_id("b"), 2);
}

#[test]
fn fonts_store_their_bytes() {
    let mut loader = Loader::new();
    loader.load_fonts(vec![NamedBytes { name: "mono".to_owned(), bytes: vec![9, 9, 9] }]);
    assert_eq!(loader.get_resource_id("mono"), 1);
    match &loader.resources[0] {
        Some(Resource::Font(b)) => assert_eq!(b, &vec![9, 9, 9]),
        other => panic!("expected a font, got {:?}", other.is_some()),
    }
    // A font id still resolves to the default texture for drawing.
    assert_eq!(loader.get_texture_by_id(1).id, 0);
}
