use ledstrip::pixel::Pixel;
use ledstrip::static_rainbow::{brightnessed, FadePhase, SRainbow};

fn dark_strip(n: usize) -> Vec<Pixel> {
    let mut v = Vec::new();
    for _ in 0..n {
        v.push(Pixel::off());
    }
    v
}

#[test]
fn brightnessed_values() {
    assert_eq!(brightnessed((255, 255, 255), 127), Pixel::rgb(255, 255, 255));
    assert_eq!(brightnessed((255, 0, 0), 64), Pixel::rgb(128, 0, 0));
    assert_eq!(brightnessed((127, 127, 127), 1), Pixel::rgb(1, 1, 1));
    assert_eq!(brightnessed((200, 100, 50), 0), Pixel::off());
}

#[test]
fn fresh_srainbow_reports_not_running() {
    let mut a = SRainbow::new(8, 5);
    let mut strip = dark_strip(8);
    assert!(!a.next_frame(&mut strip));
}

#[test]
fn brightness_climbs_to_cap_over_exactly_127_ticks() {
    let mut a = SRainbow::new(8, 5);
    let mut strip = dark_strip(8);
    a.start();
    for k in 1..=127u8 {
        assert!(a.next_frame(&mut strip));
        assert_eq!(a.brightness, k);
        assert_eq!(a.status, FadePhase::FadeIn);
        // The tail shows neutral white scaled by the new brightness.
        assert_eq!(strip[7], Pixel::rgb(k, k, k));
    }
    // One more tick hands over to the ongoing phase at constant brightness.
    assert!(a.next_frame(&mut strip));
    assert_eq!(a.brightness, 127);
    assert_eq!(a.status, FadePhase::Ongoing);
    assert_eq!(strip[7], Pixel::rgb(127, 127, 127));
    assert!(a.next_frame(&mut strip));
    assert_eq!(a.brightness, 127);
}

#[test]
fn brightness_drains_over_exactly_127_ticks_after_stop() {
    let mut a = SRainbow::new(8, 5);
    let mut strip = dark_strip(8);
    a.start();
    for _ in 0..130 {
        a.next_frame(&mut strip);
    }
    assert_eq!(a.status, FadePhase::Ongoing);
    a.stop();
    assert!(a.stopping());
    assert_eq!(a.status, FadePhase::FadeOut);
    for k in 1..=127u8 {
        assert!(a.next_frame(&mut strip));
        assert_eq!(a.brightness, 127 - k);
    }
    // Brightness reached zero: the following tick reports completion and
    // leaves the strip dark.
    assert!(!a.next_frame(&mut strip));
    for p in &strip {
        assert_eq!(*p, Pixel::off());
    }
}

#[test]
fn srainbow_identity() {
    let a = SRainbow::new(8, 5);
    assert_eq!(a.name(), "srainbow");
    assert_eq!(a.wait_time(), 20);
    assert!(!a.stopping());
}
