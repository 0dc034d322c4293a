use learngl::texture::{
    sampler_name, sampler_names, sampler_numbers, texture_format, texture_kind_label, ImageColor,
    Texture, TextureCache, TextureFormat, TextureKind,
};

#[test]
fn kind_labels_follow_the_shader_convention() {
    assert_eq!(texture_kind_label(TextureKind::Diffuse), "texture_diffuse");
    assert_eq!(texture_kind_label(TextureKind::Specular), "texture_specular");
    assert_eq!(texture_kind_label(TextureKind::Normal), "texture_normal");
    assert_eq!(texture_kind_label(TextureKind::Height), "texture_height");
    assert_eq!(texture_kind_label(TextureKind::Ambient), "texture_ambient");
    assert_eq!(texture_kind_label(TextureKind::Unknown), "texture_unknown");
}

#[test]
fn counted_kinds_are_numbered_per_kind() {
    let kinds = vec![
        TextureKind::Diffuse,
        TextureKind::Specular,
        TextureKind::Diffuse,
        TextureKind::Height,
        TextureKind::Diffuse,
        TextureKind::Specular,
    ];
    assert_eq!(sampler_numbers(&kinds), vec![1, 1, 2, 1, 3, 2]);
}

#[test]
fn uncounted_kinds_are_numbered_zero() {
    let kinds = vec![TextureKind::Ambient, TextureKind::Unknown, TextureKind::Ambient];
    assert_eq!(sampler_numbers(&kinds), vec![0, 0, 0]);
}

#[test]
fn numbering_an_empty_texture_list_gives_nothing() {
    let kinds: Vec<TextureKind> = Vec::new();
    assert_eq!(sampler_numbers(&kinds), Vec::<usize>::new());
}

#[test]
fn sampler_name_appends_the_number_to_the_label() {
    assert_eq!(sampler_name(TextureKind::Diffuse, 1), "texture_diffuse1");
    assert_eq!(sampler_name(TextureKind::Specular, 12), "texture_specular12");
    assert_eq!(sampler_name(TextureKind::Ambient, 0), "texture_ambient0");
}

#[test]
fn sampler_names_number_each_texture_in_order() {
    let kinds = vec![
        TextureKind::Diffuse,
        TextureKind::Diffuse,
        TextureKind::Normal,
        TextureKind::Unknown,
    ];
    let names = sampler_names(&kinds);
    assert_eq!(
        names,
        vec![
            "texture_diffuse1".to_string(),
            "texture_diffuse2".to_string(),
            "texture_normal1".to_string(),
            "texture_unknown0".to_string(),
        ]
    );
}

#[test]
fn grayscale_images_are_stored_single_channel() {
    assert_eq!(texture_format(ImageColor::Luma8), TextureFormat::Red);
}

#[test]
fn rgb_and_unrecognized_images_are_stored_as_rgb() {
    assert_eq!(texture_format(ImageColor::Rgb8), TextureFormat::Rgb);
    assert_eq!(texture_format(ImageColor::Other), TextureFormat::Rgb);
}

#[test]
fn rgba_images_keep_their_alpha_channel() {
    assert_eq!(texture_format(ImageColor::Rgba8), TextureFormat::Rgba);
}

#[test]
fn an_empty_cache_finds_nothing() {
    let cache = TextureCache::new();
    assert_eq!(cache.len(), 0);
    assert!(cache.lookup("container2.png").is_none());
}

#[test]
fn a_cached_texture_is_found_under_its_path() {
    let mut cache = TextureCache::new();
    cache.insert(Texture {
        id: 7,
        kind: TextureKind::Diffuse,
        path: "container2.png".to_string(),
    });
    let found = cache.lookup("container2.png").expect("texture was cached");
    assert_eq!(found.id, 7);
    assert_eq!(found.path, "container2.png");
    assert_eq!(cache.len(), 1);
}

#[test]
fn lookup_tells_cached_paths_apart() {
    let mut cache = TextureCache::new();
    cache.insert(Texture {
        id: 1,
        kind: TextureKind::Diffuse,
        path: "container2.png".to_string(),
    });
    cache.insert(Texture {
        id: 2,
        kind: TextureKind::Specular,
        path: "container2_specular.png".to_string(),
    });
    assert_eq!(cache.lookup("container2.png").unwrap().id, 1);
    assert_eq!(cache.lookup("container2_specular.png").unwrap().id, 2);
    assert!(cache.lookup("awesomeface.png").is_none());
    assert_eq!(cache.len(), 2);
}
