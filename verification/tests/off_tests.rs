use ledstrip::off::Off;
use ledstrip::pixel::Pixel;

fn lit_strip(n: usize) -> Vec<Pixel> {
    let mut v = Vec::new();
    for _ in 0..n {
        v.push(Pixel::rgb(10, 20, 30));
    }
    v
}

#[test]
fn fresh_off_reports_not_running() {
    let mut a = Off::new();
    let mut strip = lit_strip(8);
    assert!(!a.next_frame(&mut strip));
}

#[test]
fn started_off_clears_and_runs_once_until_stop() {
    let mut a = Off::new();
    let mut strip = lit_strip(8);
    a.start();
    // The very next frame clears every pixel and still reports running.
    assert!(a.next_frame(&mut strip));
    for p in &strip {
        assert_eq!(*p, Pixel::off());
    }
    a.stop();
    // The frame after the stop reports completion.
    assert!(!a.next_frame(&mut strip));
}

#[test]
fn off_identity() {
    let a = Off::new();
    assert_eq!(a.name(), "off");
    assert_eq!(a.wait_time(), 20);
    assert!(a.stopping());
}
