use ledstrip::pixel::Pixel;
use ledstrip::rainbow::Rainbow;

fn dark_strip(n: usize) -> Vec<Pixel> {
    let mut v = Vec::new();
    for _ in 0..n {
        v.push(Pixel::off());
    }
    v
}

#[test]
fn fresh_rainbow_on_dark_strip_reports_not_running() {
    let mut a = Rainbow::new(8, 5);
    let mut strip = dark_strip(8);
    assert!(!a.next_frame(&mut strip));
    for p in &strip {
        assert_eq!(*p, Pixel::off());
    }
}

#[test]
fn running_rainbow_feeds_head_and_fades_tail() {
    let mut a = Rainbow::new(8, 5);
    let mut strip = dark_strip(8);
    a.start();
    assert!(a.next_frame(&mut strip));
    // Head pixel: hue of angle 1 at full saturation, half lightness.
    assert_eq!(strip[0], Pixel::rgb(255, 4, 0));
    // Wheel stays dark behind the head; the tail climbed one step.
    for i in 1..5 {
        assert_eq!(strip[i], Pixel::off());
    }
    for i in 5..8 {
        assert_eq!(strip[i], Pixel::rgb(1, 1, 1));
    }
    assert!(a.next_frame(&mut strip));
    // The first head pixel travelled one slot.
    assert_eq!(strip[1], Pixel::rgb(255, 4, 0));
    assert_eq!(strip[0], Pixel::rgb(255, 8, 0));
    for i in 5..8 {
        assert_eq!(strip[i], Pixel::rgb(2, 2, 2));
    }
}

#[test]
fn stopped_rainbow_runs_wheel_length_ticks_while_trail_decays() {
    // A lit pixel at the head of the wheel and a stopped animation: the
    // trail needs the full wheel length to travel out, one tick per slot.
    let mut a = Rainbow::new(8, 5);
    let mut strip = dark_strip(8);
    strip[0] = Pixel::rgb(9, 9, 9);
    for _ in 0..5 {
        assert!(a.next_frame(&mut strip));
    }
    // The trail has fully decayed to dark: the next tick reports done.
    assert!(!a.next_frame(&mut strip));
    for p in &strip {
        assert_eq!(*p, Pixel::off());
    }
}

#[test]
fn stopped_rainbow_fades_lit_tail_to_dark() {
    let mut a = Rainbow::new(8, 5);
    let mut strip = dark_strip(8);
    strip[6] = Pixel::rgb(3, 3, 3);
    // The still-running check reads the tail after its fade step, so the
    // tick that drains the last unit already reports completion.
    assert!(a.next_frame(&mut strip));
    assert!(a.next_frame(&mut strip));
    assert!(!a.next_frame(&mut strip));
    for p in &strip {
        assert_eq!(*p, Pixel::off());
    }
}

#[test]
fn rainbow_identity() {
    let mut a = Rainbow::new(8, 5);
    assert_eq!(a.name(), "rainbow");
    assert_eq!(a.wait_time(), 20);
    assert!(a.stopping());
    a.start();
    assert!(!a.stopping());
    a.stop();
    assert!(a.stopping());
}
