use roc_ray::config::{Config, ExitErrCode};
use roc_ray::effects::{
    check_loaded_texture, check_texture_extension, check_texture_request,
    normalize_line_endings, request_effect, supported_texture_format, AssetKind, PathExtension, TextureError,
};
use roc_ray::platform_mode::{PlatformEffect, PlatformMode};

#[test]
fn a_denied_effect_is_fatal_and_a_permitted_one_moves_the_mode() {
    let mut mode = PlatformMode::Init;
    let mut config = Config::new();
    assert!(request_effect(&mut mode, &mut config, PlatformEffect::InitWindow));
    assert_eq!(mode, PlatformMode::InitRaylib);
    assert_eq!(config.should_exit_msg_code, None);

    assert!(!request_effect(&mut mode, &mut config, PlatformEffect::DrawText));
    assert_eq!(mode, PlatformMode::InitRaylib);
    assert_eq!(
        config.should_exit_msg_code,
        Some((
            "Effect DrawText not permitted in mode InitRaylib".to_string(),
            ExitErrCode::EffectNotPermitted
        ))
    );
    assert!(!config.should_exit);

    // A later permitted effect does not clear the fatal condition.
    assert!(request_effect(&mut mode, &mut config, PlatformEffect::LogMsg));
    assert!(config.should_exit_msg_code.is_some());
}

#[test]
fn the_texture_formats() {
    for format in [
        "png", "bmp", "tga", "jpg", "gif", "qoi", "psd", "dds", "hdr", "ktx", "astc", "pkm", "pvr",
    ] {
        assert!(supported_texture_format(format), "{format}");
    }
    for other in ["", "PNG", "jpeg", "png ", "svg", "pn", "pngx"] {
        assert!(!supported_texture_format(other), "{other}");
    }
}

#[test]
fn what_stands_in_the_way_of_a_texture() {
    let png = || PathExtension::Text("PNG".to_string());
    assert_eq!(check_texture_request(true, png(), false), Ok(()));
    assert_eq!(
        check_texture_request(false, png(), true),
        Err(TextureError::NotFound)
    );
    assert_eq!(
        check_texture_request(true, PathExtension::Absent, true),
        Err(TextureError::NoExtension)
    );
    assert_eq!(
        check_texture_request(true, PathExtension::Text("Svg".to_string()), true),
        Err(TextureError::UnsupportedFormat("Svg".to_string()))
    );
    assert_eq!(
        check_texture_request(true, PathExtension::Unreadable, false),
        Err(TextureError::UnsupportedFormat("unknown".to_string()))
    );
    assert_eq!(
        check_texture_request(true, png(), true),
        Err(TextureError::InvalidPath)
    );
    // The extension counts in lower case, as Unicode defines it.
    assert_eq!(
        check_texture_request(true, PathExtension::Text("\u{212A}TX".to_string()), false),
        Ok(())
    );
    assert_eq!(
        check_texture_extension(true, png(), "png", false),
        Ok(())
    );
    assert_eq!(
        check_texture_extension(true, png(), "PNG", false),
        Err(TextureError::UnsupportedFormat("PNG".to_string()))
    );
}

#[test]
fn what_the_native_library_made_of_the_file() {
    assert_eq!(check_loaded_texture(1, 64, 64), Ok(()));
    assert_eq!(check_loaded_texture(0, 64, 64), Err(TextureError::LoadFailed));
    assert_eq!(check_loaded_texture(1, 0, 64), Err(TextureError::LoadFailed));
    assert_eq!(check_loaded_texture(1, 64, 0), Err(TextureError::LoadFailed));
    assert_eq!(check_loaded_texture(7, -1, -1), Ok(()));
}

#[test]
fn the_messages_of_a_texture_that_is_not_loaded() {
    let path = "assets/hero.svg";
    assert_eq!(
        TextureError::NotFound.message(path),
        "Texture file not found: assets/hero.svg"
    );
    assert_eq!(
        TextureError::NoExtension.message(path),
        "Texture file must have an extension"
    );
    let formats = [
        "png", "bmp", "tga", "jpg", "gif", "qoi", "psd", "dds", "hdr", "ktx", "astc", "pkm", "pvr",
    ];
    assert_eq!(
        TextureError::UnsupportedFormat("svg".to_string()).message(path),
        format!("Unsupported texture format: svg. Supported formats: {formats:?}")
    );
    assert_eq!(
        TextureError::InvalidPath.message(path),
        "Invalid characters in texture path"
    );
    assert_eq!(
        TextureError::LoadFailed.message(path),
        "Failed to load texture: assets/hero.svg. Verify the file is a valid image."
    );
}

#[test]
fn the_messages_of_a_file_that_is_not_there() {
    assert_eq!(
        AssetKind::Sound.not_found_message("a.wav"),
        "Sound file not found: a.wav"
    );
    assert_eq!(
        AssetKind::Music.not_found_message("a.ogg"),
        "Music file not found: a.ogg"
    );
    assert_eq!(
        AssetKind::Texture.not_found_message("a.png"),
        "Texture file not found: a.png"
    );
    assert_eq!(
        AssetKind::Font.not_found_message("a.ttf"),
        "Font file not found at a.ttf"
    );
    assert_eq!(
        AssetKind::Text.not_found_message("a.txt"),
        "File not found: a.txt"
    );
}

#[test]
fn lines_end_with_a_line_feed_alone() {
    let cases: [(&str, &str); 8] = [
        ("", ""),
        ("a\r\nb\r\n", "a\nb\n"),
        ("a\nb", "a\nb"),
        ("a\rb", "a\rb"),
        ("\r\r\n", "\r\n"),
        ("\r\n\r\n", "\n\n"),
        ("\n\r", "\n\r"),
        ("x\r", "x\r"),
    ];
    for (input, expected) in cases {
        assert_eq!(
            normalize_line_endings(&input.as_bytes().to_vec()),
            expected.as_bytes().to_vec(),
            "{input:?}"
        );
        assert_eq!(input.replace("\r\n", "\n"), expected);
    }
}
