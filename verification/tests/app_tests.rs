use ledstrip::app::{App, make_animation, TransitionOutcome};
use ledstrip::pixel::Pixel;

fn dark_strip(n: usize) -> Vec<Pixel> {
    let mut v = Vec::new();
    for _ in 0..n {
        v.push(Pixel::off());
    }
    v
}

#[test]
fn new_app_starts_dark_and_idle() {
    let mut app = App::new();
    let mut strip = dark_strip(96);
    assert_eq!(app.active_name(), "off");
    assert_eq!(app.wait_time(), 20);
    // No request pending: the idle off animation reports done every tick,
    // and an empty request never triggers a transition.
    assert!(!app.tick_frame("", &mut strip));
    assert_eq!(app.transition(""), TransitionOutcome::Unchanged);
    assert_eq!(app.active_name(), "off");
}

#[test]
fn registry_resolves_the_four_names_only() {
    assert!(make_animation("rainbow", 96, 78).is_some());
    assert!(make_animation("srainbow", 96, 78).is_some());
    assert!(make_animation("chase", 96, 78).is_some());
    assert!(make_animation("off", 96, 78).is_some());
    assert!(make_animation("glorp", 96, 78).is_none());
    assert!(make_animation("Rainbow", 96, 78).is_none());
    assert!(make_animation("", 96, 78).is_none());
}

#[test]
fn transition_to_requested_animation() {
    // The orchestrator runs "rainbow"; the slot holds "chase". Once the
    // rainbow reports completion, the chase is instantiated and started.
    let mut app = App::new();
    let mut strip = dark_strip(96);
    assert_eq!(app.transition("rainbow"), TransitionOutcome::Started);
    assert_eq!(app.active_name(), "rainbow");
    // While the slot matches, the running rainbow keeps reporting frames.
    for _ in 0..5 {
        assert!(app.tick_frame("rainbow", &mut strip));
    }
    let mut ticks = 0;
    loop {
        let still = app.tick_frame("chase", &mut strip);
        if !still {
            break;
        }
        ticks += 1;
        assert!(ticks < 500, "rainbow did not wind down");
    }
    // The rainbow saw the differing request, stopped, and wound down; the
    // transition replaces it with a freshly started chase.
    assert_eq!(app.transition("chase"), TransitionOutcome::Started);
    assert_eq!(app.active_name(), "chase");
    assert_eq!(app.wait_time(), 10);
    // The fresh chase keeps running: no further transition is triggered
    // while the request matches the active animation.
    assert!(app.tick_frame("chase", &mut strip));
}

#[test]
fn unknown_name_falls_back_to_off() {
    let mut app = App::new();
    let mut strip = dark_strip(96);
    assert!(!app.tick_frame("glorp", &mut strip));
    let outcome = app.transition("glorp");
    assert_eq!(outcome, TransitionOutcome::UnknownFallback);
    assert_eq!(app.active_name(), "off");
    // The caller is told to overwrite the slot with the canonical name.
    assert_eq!(outcome.slot_correction(), Some("off"));
    assert_eq!(TransitionOutcome::Started.slot_correction(), None);
    // With the corrected slot the started off animation keeps running:
    // `start` is not invoked again on later ticks.
    assert!(app.tick_frame("off", &mut strip));
    assert!(app.tick_frame("off", &mut strip));
}

#[test]
fn custom_lengths_flow_into_instances() {
    let mut config = ledstrip::config::Config::default();
    config.strip_length = Some(10);
    config.wheel_length = Some(6);
    let app = App::from_config(config);
    assert_eq!(app.strip_length, 10);
    assert_eq!(app.wheel_length, 6);
}

#[test]
fn invalid_lengths_fall_back_to_defaults() {
    let mut config = ledstrip::config::Config::default();
    config.strip_length = Some(-3);
    config.wheel_length = Some(7);
    let app = App::from_config(config);
    assert_eq!(app.strip_length, 96);
    assert_eq!(app.wheel_length, 78);
}
