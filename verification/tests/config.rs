use tiv::config::{
    get_help, ArgumentError, Config, ImageType, MediaKind, RenderMode, ResizeType,
};

fn args(items: &[&str]) -> Vec<String> {
    items.iter().map(|s| s.to_string()).collect()
}

#[test]
fn path_alone_takes_the_defaults() {
    let config = Config::from_vec(&args(&["prog", "img.png"]), (80, 24)).unwrap();
    assert_eq!(config.path, "img.png");
    assert_eq!(config.resize_type, ResizeType::Fit);
    assert_eq!(config.image_type, ImageType::Color);
    assert_eq!(config.term_size, (80, 24));
}

#[test]
fn crop_and_gray_are_selected() {
    let config = Config::from_vec(&args(&["prog", "img.png", "c", "G"]), (80, 24)).unwrap();
    assert_eq!(config.path, "img.png");
    assert_eq!(config.resize_type, ResizeType::CropToFill);
    assert_eq!(config.image_type, ImageType::Gray);
}

#[test]
fn unknown_resize_type_is_an_argument_error() {
    let out = Config::from_vec(&args(&["prog", "img.png", "x"]), (80, 24));
    assert_eq!(out.err(), Some(ArgumentError::UnknownResizeType));
}

#[test]
fn unknown_image_type_is_an_argument_error() {
    let out = Config::from_vec(&args(&["prog", "img.png", "s", "g"]), (80, 24));
    assert_eq!(out.err(), Some(ArgumentError::UnknownImageType));
}

#[test]
fn unknown_resize_type_is_reported_first() {
    let out = Config::from_vec(&args(&["prog", "img.png", "F", "g"]), (80, 24));
    assert_eq!(out.err(), Some(ArgumentError::UnknownResizeType));
}

#[test]
fn missing_path_is_an_argument_error() {
    assert_eq!(Config::from_vec(&args(&["prog"]), (80, 24)).err(), Some(ArgumentError::MissingPath));
    assert_eq!(Config::from_vec(&args(&[]), (80, 24)).err(), Some(ArgumentError::MissingPath));
}

#[test]
fn resize_type_alone_leaves_color() {
    let config = Config::from_vec(&args(&["prog", "a.gif", "s"]), (80, 24)).unwrap();
    assert_eq!(config.resize_type, ResizeType::ScaleToFill);
    assert_eq!(config.image_type, ImageType::Color);
}

#[test]
fn arguments_after_the_fourth_are_ignored() {
    let config = Config::from_vec(&args(&["prog", "a.png", "f", "C", "zzz", "??"]), (80, 24)).unwrap();
    assert_eq!(config.path, "a.png");
    assert_eq!(config.resize_type, ResizeType::Fit);
    assert_eq!(config.image_type, ImageType::Color);
}

#[test]
fn the_configuration_carries_the_terminal_size() {
    let config = Config::from_vec(&args(&["prog", "a.png", "c"]), (80, 24)).unwrap();
    assert_eq!(config.term_size, (80, 24));
    assert_eq!(config.resize_type, ResizeType::CropToFill);
    assert_eq!(config.target_size(RenderMode::HalfBlock), (80, 48));
    let config = Config::from_vec(&args(&["prog", "a.png"]), (132, 43)).unwrap();
    assert_eq!(config.term_size, (132, 43));
    assert_eq!(config.target_size(RenderMode::HalfBlock), (132, 86));
}

#[test]
fn the_terminal_size_does_not_excuse_bad_arguments() {
    assert_eq!(
        Config::from_vec(&args(&["prog", "a.png", "cc"]), (80, 24)).err(),
        Some(ArgumentError::UnknownResizeType)
    );
    assert_eq!(
        Config::from_vec(&args(&["prog"]), (80, 24)).err(),
        Some(ArgumentError::MissingPath)
    );
}

#[test]
fn resize_type_tokens() {
    assert_eq!(ResizeType::from_str("f"), Ok(ResizeType::Fit));
    assert_eq!(ResizeType::from_str("c"), Ok(ResizeType::CropToFill));
    assert_eq!(ResizeType::from_str("s"), Ok(ResizeType::ScaleToFill));
    assert_eq!(ResizeType::from_str(""), Err(ArgumentError::UnknownResizeType));
    assert_eq!(ResizeType::from_str("F"), Err(ArgumentError::UnknownResizeType));
    assert_eq!(ResizeType::from_str("fit"), Err(ArgumentError::UnknownResizeType));
    assert_eq!(ResizeType::from_str("C"), Err(ArgumentError::UnknownResizeType));
}

#[test]
fn image_type_tokens() {
    assert_eq!(ImageType::from_str("C"), Ok(ImageType::Color));
    assert_eq!(ImageType::from_str("G"), Ok(ImageType::Gray));
    assert_eq!(ImageType::from_str(""), Err(ArgumentError::UnknownImageType));
    assert_eq!(ImageType::from_str("c"), Err(ArgumentError::UnknownImageType));
    assert_eq!(ImageType::from_str("GG"), Err(ArgumentError::UnknownImageType));
    assert_eq!(ImageType::from_str("\u{2584}"), Err(ArgumentError::UnknownImageType));
}

#[test]
fn defaults_are_fit_and_color() {
    assert_eq!(ResizeType::default(), ResizeType::Fit);
    assert_eq!(ImageType::default(), ImageType::Color);
}

#[test]
fn half_block_doubles_the_rows() {
    let config = Config::from_vec(&args(&["prog", "a.png"]), (80, 24)).unwrap();
    assert_eq!(config.target_size(RenderMode::HalfBlock), (80, 48));
    assert_eq!(config.target_size(RenderMode::FullCell), (80, 24));
}

#[test]
fn target_size_of_the_largest_terminal() {
    let config = Config::from_vec(&args(&["prog", "a.png"]), (u16::MAX, u16::MAX)).unwrap();
    assert_eq!(config.target_size(RenderMode::HalfBlock), (65535, 131070));
    assert_eq!(config.target_size(RenderMode::FullCell), (65535, 65535));
}

#[test]
fn only_gif_is_an_animation() {
    assert_eq!(MediaKind::from_extension(Some("gif")), MediaKind::Animation);
    assert_eq!(MediaKind::from_extension(Some("png")), MediaKind::Still);
    assert_eq!(MediaKind::from_extension(Some("GIF")), MediaKind::Still);
    assert_eq!(MediaKind::from_extension(Some("gi")), MediaKind::Still);
    assert_eq!(MediaKind::from_extension(Some("giff")), MediaKind::Still);
    assert_eq!(MediaKind::from_extension(Some("")), MediaKind::Still);
    assert_eq!(MediaKind::from_extension(None), MediaKind::Still);
}

#[test]
fn every_kind_of_file_is_drawn_with_half_blocks() {
    assert_eq!(RenderMode::for_media(MediaKind::Animation), RenderMode::HalfBlock);
    assert_eq!(RenderMode::for_media(MediaKind::Still), RenderMode::HalfBlock);
}

#[test]
fn help_text_is_exact() {
    let expected = "Terminal image viewer (tiv)\n---------------------------\ntiv-rs <path_to_image> (resize_type (image_type))\n\tresize type ... f (fit; default) | c (crop to fill) | s (scale to fill)\n\timage type  ... C (color; default) | G (gray))";
    assert_eq!(get_help(), expected);
}
