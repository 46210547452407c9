use backrooms_raycaster::color::Rgba;
use backrooms_raycaster::texture::{generate_texture, LoadedTextures, Texture, TextureError, TextureKind, TextureManager};

fn sample_texture() -> Texture {
    let bytes: Vec<u8> = vec![
        1, 2, 3, 255, 4, 5, 6, 255, 7, 8, 9, 255,
        10, 11, 12, 255, 13, 14, 15, 255, 16, 17, 18, 128,
    ];
    Texture::from_rgba_bytes(3, 2, &bytes).unwrap()
}

#[test]
fn bytes_become_pixels_row_by_row() {
    let t = sample_texture();
    assert_eq!((t.width, t.height), (3, 2));
    assert_eq!(t.sample_point(2, 1), Rgba::new(16, 17, 18, 128));
    assert_eq!(t.sample_point(1, 0), Rgba::new(4, 5, 6, 255));
}

#[test]
fn bad_texture_data_is_rejected() {
    assert_eq!(Texture::from_rgba_bytes(0, 2, &vec![]).unwrap_err(), TextureError::InvalidDimensions);
    assert_eq!(Texture::from_rgba_bytes(70000, 1, &vec![]).unwrap_err(), TextureError::InvalidDimensions);
    assert_eq!(Texture::from_rgba_bytes(2, 2, &vec![0u8; 15]).unwrap_err(), TextureError::SizeMismatch);
}

#[test]
fn sampling_clamps_to_the_edges() {
    let t = sample_texture();
    assert_eq!(t.sample_point(99, 99), Rgba::new(16, 17, 18, 128));
    assert_eq!(t.sample(0, 0), Rgba::new(1, 2, 3, 255));
    assert_eq!(t.sample(65535, 65535), Rgba::new(16, 17, 18, 128));
    assert_eq!(t.sample(u32::MAX, 0), Rgba::new(7, 8, 9, 255));
    assert_eq!(t.sample(32768, 0), Rgba::new(4, 5, 6, 255));
}

#[test]
fn generated_textures_follow_their_patterns() {
    let wall = generate_texture(TextureKind::Wall, 64);
    assert_eq!((wall.width, wall.height, wall.pixels.len()), (64, 64, 4096));
    assert_eq!(wall.sample_point(0, 0), Rgba::new(230, 200, 0, 255));
    assert_eq!(wall.sample_point(2, 1), Rgba::new(227, 197, 0, 255));
    assert_eq!(wall.sample_point(15, 0), Rgba::new(212, 182, 0, 255));
    let door = generate_texture(TextureKind::WallExit, 64);
    assert_eq!(door.sample_point(0, 0), Rgba::new(30, 80, 200, 255));
    assert_eq!(door.sample_point(16, 0), Rgba::new(30, 80, 150, 255));
    assert_eq!(door.sample_point(32, 40), Rgba::new(30, 80, 200, 255));
    let ceiling = generate_texture(TextureKind::Ceiling, 64);
    assert_eq!(ceiling.sample_point(16, 5), Rgba::new(200, 200, 190, 255));
    assert_eq!(ceiling.sample_point(5, 5), Rgba::new(240, 240, 230, 255));
    let floor = generate_texture(TextureKind::Floor, 64);
    assert_eq!(floor.sample_point(0, 0), Rgba::new(140, 160, 140, 255));
    assert_eq!(floor.sample_point(1, 1), Rgba::new(149, 169, 149, 255));
}

#[test]
fn generation_is_deterministic() {
    for kind in [TextureKind::Wall, TextureKind::WallExit, TextureKind::Floor, TextureKind::Ceiling] {
        assert_eq!(generate_texture(kind, 16).pixels, generate_texture(kind, 16).pixels);
    }
}

#[test]
fn store_keeps_loaded_textures_and_generates_the_rest() {
    let loaded = LoadedTextures { wall: Some(sample_texture()), wall_exit: None, floor: None, ceiling: None };
    let store = TextureManager::new(8, loaded).unwrap();
    assert_eq!(store.get_texture(TextureKind::Wall).pixels, sample_texture().pixels);
    assert_eq!(store.get_texture(TextureKind::Floor).width, 8);
    assert_eq!(store.get_texture(TextureKind::Ceiling).pixels, generate_texture(TextureKind::Ceiling, 8).pixels);
    let broken = Texture::new(vec![Rgba::new(0, 0, 0, 255)], 2, 2);
    let loaded = LoadedTextures { wall: Some(broken), wall_exit: None, floor: None, ceiling: None };
    let store = TextureManager::new(8, loaded).unwrap();
    assert_eq!(store.get_texture(TextureKind::Wall).pixels, generate_texture(TextureKind::Wall, 8).pixels);
}

#[test]
fn store_without_fallback_size_needs_every_texture() {
    let none = || LoadedTextures { wall: None, wall_exit: None, floor: None, ceiling: None };
    assert_eq!(TextureManager::new(0, none()).err(), Some(TextureError::NoFallback));
    let all = LoadedTextures { wall: Some(sample_texture()), wall_exit: Some(sample_texture()), floor: Some(sample_texture()), ceiling: Some(sample_texture()) };
    assert!(TextureManager::new(0, all).is_ok());
}

#[test]
fn wide_images_are_accepted() {
    let bytes = vec![9u8; 4 * 4097];
    let t = Texture::from_rgba_bytes(4097, 1, &bytes).unwrap();
    assert_eq!((t.width, t.height), (4097, 1));
    assert_eq!(t.sample_point(4096, 0), Rgba::new(9, 9, 9, 9));
}

#[test]
fn small_and_large_fallback_sizes_generate_every_texture() {
    for size in [1usize, 2, 3, 300] {
        let none = LoadedTextures { wall: None, wall_exit: None, floor: None, ceiling: None };
        let store = TextureManager::new(size, none).unwrap();
        for kind in [TextureKind::Wall, TextureKind::WallExit, TextureKind::Floor, TextureKind::Ceiling] {
            let t = store.get_texture(kind);
            assert_eq!((t.width, t.height, t.pixels.len()), (size, size, size * size));
        }
    }
    let door = generate_texture(TextureKind::WallExit, 2);
    assert_eq!(door.sample_point(0, 0), Rgba::new(30, 80, 200, 255));
    assert_eq!(door.sample_point(1, 0), Rgba::new(30, 80, 150, 255));
    let ceiling = generate_texture(TextureKind::Ceiling, 3);
    assert_eq!(ceiling.sample_point(1, 2), Rgba::new(200, 200, 190, 255));
}
