use roc_ray::glue::RocColor;

#[test]
fn test_from_rgba() {
    // Test full white (all components 255)
    assert_eq!(RocColor::white().0, 0xFF_FF_FF_FF);

    // Test pure black with full opacity
    assert_eq!(RocColor::black().0, 0xFF00_0000);

    // Test pure red with full opacity
    assert_eq!(RocColor::red().0, 0xFF00_00FF);

    // Test pure green with full opacity
    assert_eq!(RocColor::green().0, 0xFF00_FF00);

    // Test pure blue with full opacity
    assert_eq!(RocColor::blue().0, 0xFFFF_0000);

    // Test transparent black
    let transparent = RocColor::from_rgba(0, 0, 0, 0);
    assert_eq!(transparent.0, 0x0000_0000);
}

#[test]
fn test_to_rgba() {
    // Test conversion back from full white
    let white = RocColor::from_rgba(255, 255, 255, 255);
    assert_eq!(white.to_rgba(), (255, 255, 255, 255));

    // Test conversion back from black
    assert_eq!(RocColor::black().to_rgba(), (0, 0, 0, 255));

    // Test conversion back from pure red
    let red = RocColor::from_rgba(255, 0, 0, 255);
    assert_eq!(red.to_rgba(), (255, 0, 0, 255));

    // Test conversion back from semi-transparent color
    let semi_transparent = RocColor::from_rgba(128, 128, 128, 128);
    assert_eq!(semi_transparent.to_rgba(), (128, 128, 128, 128));
}

#[test]
fn test_color_components() {
    // Test each component individually
    for i in 0..=255 {
        // Test red component
        let red = RocColor::from_rgba(i as u8, 0, 0, 255);
        assert_eq!(red.to_rgba().0, i as u8);

        // Test green component
        let green = RocColor::from_rgba(0, i as u8, 0, 255);
        assert_eq!(green.to_rgba().1, i as u8);

        // Test blue component
        let blue = RocColor::from_rgba(0, 0, i as u8, 255);
        assert_eq!(blue.to_rgba().2, i as u8);

        // Test alpha component
        let alpha = RocColor::from_rgba(0, 0, 0, i as u8);
        assert_eq!(alpha.to_rgba().3, i as u8);
    }
}

#[test]
fn test_debug_format() {
    let color = RocColor::from_rgba(100, 150, 200, 255);
    assert_eq!(
        color.to_debug_string(),
        "HostColor { r: 100, g: 150, b: 200, a: 255 }"
    );
}

#[test]
fn test_copy_clone() {
    let original = RocColor::from_rgba(123, 45, 67, 89);
    let copied = original;
    let cloned = original.clone();

    assert_eq!(original.0, copied.0);
    assert_eq!(original.0, cloned.0);
}

#[test]
fn debug_text_of_small_and_zero_components() {
    assert_eq!(
        RocColor::from_rgba(0, 7, 10, 99).to_debug_string(),
        "HostColor { r: 0, g: 7, b: 10, a: 99 }"
    );
}

#[test]
fn components_round_trip_for_every_byte_pattern_tried() {
    for (r, g, b, a) in [(1u8, 2u8, 3u8, 4u8), (255, 0, 255, 0), (17, 34, 51, 68)] {
        assert_eq!(RocColor::from_rgba(r, g, b, a).to_rgba(), (r, g, b, a));
    }
    assert_eq!(RocColor::from_rgba(1, 2, 3, 4).0, 0x0403_0201);
}

#[test]
fn components_of_a_negative_integer_are_its_low_bytes() {
    assert_eq!(RocColor(-1).to_rgba(), (255, 255, 255, 255));
    assert_eq!(RocColor(-256).to_rgba(), (0, 255, 255, 255));
    assert_eq!(RocColor(0x1_0000_0001).to_rgba(), (1, 0, 0, 0));
}
