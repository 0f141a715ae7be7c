use ledstrip::chase::{Chase, ChasePhase};
use ledstrip::pixel::Pixel;

fn dark_strip(n: usize) -> Vec<Pixel> {
    let mut v = Vec::new();
    for _ in 0..n {
        v.push(Pixel::off());
    }
    v
}

fn all_dark(strip: &[Pixel]) -> bool {
    strip.iter().all(|p| *p == Pixel::off())
}

#[test]
fn fresh_chase_reports_not_running() {
    let mut a = Chase::new(4);
    let mut strip = dark_strip(4);
    assert!(!a.next_frame(&mut strip));
    assert!(all_dark(&strip));
}

#[test]
fn start_enters_buildup() {
    let mut a = Chase::new(4);
    assert!(matches!(a.status, ChasePhase::Off));
    a.start();
    assert!(matches!(a.status, ChasePhase::BuildUp));
    assert!(!a.stopping());
}

#[test]
fn full_cycle_returns_to_buildup() {
    let mut a = Chase::new(4);
    let mut strip = dark_strip(4);
    a.start();
    // Build-up fills the strip from the back; every tick reports running.
    let mut ticks = 0;
    while !matches!(a.status, ChasePhase::FadeOut) {
        assert!(a.next_frame(&mut strip));
        ticks += 1;
        assert!(ticks < 200, "build-up did not finish");
    }
    // Fade-out drains the strip, then re-enters build-up with the chase
    // still reporting running on every tick.
    while !matches!(a.status, ChasePhase::BuildUp) {
        assert!(a.next_frame(&mut strip));
        ticks += 1;
        assert!(ticks < 400, "fade-out did not finish");
    }
    assert!(all_dark(&strip));
    assert_eq!(a.current_index, 0);
}

#[test]
fn stop_during_buildup_eventually_reports_done() {
    let mut a = Chase::new(4);
    let mut strip = dark_strip(4);
    a.start();
    // A few build-up steps light a travelling pixel.
    for _ in 0..3 {
        a.next_frame(&mut strip);
    }
    a.stop();
    assert!(a.stopping());
    assert!(matches!(a.status, ChasePhase::FadeOut));
    let mut ticks = 0;
    while a.next_frame(&mut strip) {
        ticks += 1;
        assert!(ticks < 200, "fade-out after stop did not finish");
    }
    // Completion comes only once the scan finds no lit pixel; afterwards
    // the chase rests.
    assert!(all_dark(&strip));
    assert!(!a.next_frame(&mut strip));
    assert!(all_dark(&strip));
}

#[test]
fn chase_identity() {
    let a = Chase::new(4);
    assert_eq!(a.name(), "chase");
    assert_eq!(a.wait_time(), 10);
    assert!(a.stopping());
}
