use ledstrip::color::hue_to_rgb;

#[test]
fn primary_hues() {
    assert_eq!(hue_to_rgb(0), (255, 0, 0));
    assert_eq!(hue_to_rgb(120), (0, 255, 0));
    assert_eq!(hue_to_rgb(240), (0, 0, 255));
}

#[test]
fn secondary_hues() {
    assert_eq!(hue_to_rgb(60), (255, 255, 0));
    assert_eq!(hue_to_rgb(180), (0, 255, 255));
    assert_eq!(hue_to_rgb(300), (255, 0, 255));
}

#[test]
fn mid_sector_ramp() {
    // 30 degrees: halfway up the first sector's green ramp, truncating.
    assert_eq!(hue_to_rgb(30), (255, 127, 0));
    // 90 degrees: halfway down the second sector's red ramp.
    assert_eq!(hue_to_rgb(90), (127, 255, 0));
}

#[test]
fn last_degree() {
    let (r, g, b) = hue_to_rgb(359);
    assert_eq!(r, 255);
    assert_eq!(g, 0);
    // 255 * (60 - 59) / 60 == 4.
    assert_eq!(b, 4);
}
