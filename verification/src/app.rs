use vstd::prelude::*;
use crate::animation::{
    Animation, anim_step, is_initial, spec_name, spec_started, spec_stopped, spec_stopping,
    spec_wait,
};
use crate::chase::{Chase, ChasePhase};
use crate::config::Config;
use crate::off::Off;
use crate::pixel::{Pixel, spec_pixel_off};
use crate::rainbow::Rainbow;
use crate::static_rainbow::{FadePhase, SRainbow};
use crate::strutil::str_eq;

verus! {

/// The names the animation registry resolves.
pub open spec fn registered(name: Seq<char>) -> bool {
    ||| name == "rainbow"@
    ||| name == "srainbow"@
    ||| name == "chase"@
    ||| name == "off"@
}

/// The fresh instance the registry's factory builds for a name, from the
/// configured strip and wheel lengths. The chase runs over the wheel range
/// only; an unregistered name builds the off animation.
pub open spec fn spec_make(name: Seq<char>, strip_length: i32, wheel_length: i32) -> Animation {
    if name == "rainbow"@ {
        Animation::Rainbow(Rainbow { angle: 0, strip_length, wheel_length, running: false })
    } else if name == "srainbow"@ {
        Animation::SRainbow(
            SRainbow {
                angle: 0,
                strip_length,
                wheel_length,
                status: FadePhase::FadeIn,
                brightness: 0,
                running: false,
            },
        )
    } else if name == "chase"@ {
        Animation::Chase(
            Chase {
                status: ChasePhase::Off,
                current_index: 0,
                strip_length: wheel_length,
                color: spec_pixel_off(),
                running: false,
            },
        )
    } else {
        Animation::Off(Off { running: false })
    }
}

/// Resolves a name in the registry: a fresh instance for a registered
/// name, nothing for any other.
pub fn make_animation(name: &str, strip_length: i32, wheel_length: i32) -> (r: Option<Animation>)
    ensures
        registered(name@) ==> r == Some(spec_make(name@, strip_length, wheel_length)),
        !registered(name@) ==> r is None,
{
    if str_eq(name, "rainbow") {
        Some(Animation::Rainbow(Rainbow::new(strip_length, wheel_length)))
    } else if str_eq(name, "srainbow") {
        Some(Animation::SRainbow(SRainbow::new(strip_length, wheel_length)))
    } else if str_eq(name, "chase") {
        Some(Animation::Chase(Chase::new(wheel_length)))
    } else if str_eq(name, "off") {
        Some(Animation::Off(Off::new()))
    } else {
        None
    }
}

/// What a transition did: nothing pending, a registered name started, or
/// the fallback for an unknown name.
#[derive(Clone, Copy, PartialEq, Eq, Structural, Debug)]
pub enum TransitionOutcome {
    Unchanged,
    Started,
    UnknownFallback,
}

impl TransitionOutcome {
    /// The value the request slot must be corrected to, if any: after an
    /// unknown name fell back, the slot takes the canonical fallback name,
    /// so the substitution does not repeat every transition.
    pub fn slot_correction(&self) -> (r: Option<&'static str>)
        ensures
            (*self == TransitionOutcome::UnknownFallback) == (r is Some),
            r is Some ==> r->0@ == "off"@,
    {
        match self {
            TransitionOutcome::UnknownFallback => Some("off"),
            _ => None,
        }
    }
}

/// The lengths the orchestrator runs with: the configured values when they
/// form a valid pair (a positive strip, a wheel sub-range of it), the
/// documented defaults otherwise.
pub open spec fn spec_effective_lengths(c: Config) -> (i32, i32) {
    if 1 <= c.spec_strip_length() && 0 <= c.spec_wheel_length() && c.spec_wheel_length()
        <= c.spec_strip_length() {
        (c.spec_strip_length(), c.spec_wheel_length())
    } else {
        (96, 78)
    }
}

/// The orchestrator: owns the active animation instance and the
/// configuration the registry builds fresh instances from. The request
/// slot and the hardware stay with the caller, which hands in the latest
/// requested name and the pixel buffer each tick.
pub struct App {
    pub config: Config,
    pub strip_length: i32,
    pub wheel_length: i32,
    pub current_animation: Animation,
}

impl App {
    /// Well-formed orchestrator: valid lengths and a well-formed active
    /// instance that fits a strip of `strip_length` pixels.
    pub open spec fn wf(self) -> bool {
        &&& 1 <= self.strip_length
        &&& 0 <= self.wheel_length <= self.strip_length
        &&& self.current_animation.wf()
        &&& self.current_animation.fits(self.strip_length as nat)
    }

    /// Builds the orchestrator around a resolved configuration; the off
    /// animation is active, not yet started.
    pub fn from_config(config: Config) -> (app: App)
        ensures
            app.wf(),
            app.config == config,
            (app.strip_length, app.wheel_length) == spec_effective_lengths(config),
            app.current_animation == Animation::Off(Off { running: false }),
            is_initial(app.current_animation),
    {
        let strip = config.get_strip_length();
        let wheel = config.get_wheel_length();
        let (strip, wheel) = if 1 <= strip && 0 <= wheel && wheel <= strip {
            (strip, wheel)
        } else {
            (96, 78)
        };
        App { config, strip_length: strip, wheel_length: wheel, current_animation: Animation::Off(Off::new()) }
    }

    /// Builds the orchestrator from the default configuration.
    pub fn new() -> (app: App)
        ensures
            app.wf(),
            app.strip_length == 96,
            app.wheel_length == 78,
            app.config.spec_strip_length() == 96,
            app.config.spec_wheel_length() == 78,
            app.current_animation == Animation::Off(Off { running: false }),
            is_initial(app.current_animation),
    {
        App::from_config(Config::default())
    }

    /// One render tick: when the requested name differs from the active
    /// animation's and it is not already stopping, it is asked to stop;
    /// then the next frame is rendered into the strip. Reports whether the
    /// active animation still has frames to render; a report of false is
    /// the sole signal that a transition may happen.
    pub fn tick_frame(&mut self, requested: &str, strip: &mut Vec<Pixel>) -> (still: bool)
        requires
            old(self).wf(),
            old(strip)@.len() == old(self).strip_length as nat,
        ensures
            final(self).wf(),
            final(self).config == old(self).config,
            final(self).strip_length == old(self).strip_length,
            final(self).wheel_length == old(self).wheel_length,
            final(strip)@.len() == old(strip)@.len(),
            anim_step(
                if requested@ != spec_name(old(self).current_animation) && !spec_stopping(
                    old(self).current_animation,
                ) {
                    spec_stopped(old(self).current_animation)
                } else {
                    old(self).current_animation
                },
                old(strip)@,
                final(self).current_animation,
                final(strip)@,
                still,
            ),
    {
        let name = self.current_animation.name();
        if !str_eq(requested, name) && !self.current_animation.stopping() {
            self.current_animation.stop();
        }
        self.current_animation.next_frame(strip)
    }

    /// The transition step, run once the active animation has reported
    /// completion: an empty request changes nothing; a registered name is
    /// instantiated via the registry, started exactly once, and made
    /// active, discarding the previous instance; an unknown name falls
    /// back to a freshly started off animation, and the outcome tells the
    /// caller to correct the request slot.
    pub fn transition(&mut self, requested: &str) -> (outcome: TransitionOutcome)
        requires
            old(self).wf(),
        ensures
            final(self).wf(),
            final(self).config == old(self).config,
            final(self).strip_length == old(self).strip_length,
            final(self).wheel_length == old(self).wheel_length,
            requested@.len() == 0 ==> *final(self) == *old(self) && outcome
                == TransitionOutcome::Unchanged,
            requested@.len() > 0 && registered(requested@) ==> spec_started(
                spec_make(requested@, old(self).strip_length, old(self).wheel_length),
                final(self).current_animation,
            ) && outcome == TransitionOutcome::Started,
            requested@.len() > 0 && !registered(requested@) ==> spec_started(
                Animation::Off(Off { running: false }),
                final(self).current_animation,
            ) && outcome == TransitionOutcome::UnknownFallback,
    {
        if requested.is_empty() {
            return TransitionOutcome::Unchanged;
        }
        match make_animation(requested, self.strip_length, self.wheel_length) {
            Some(mut fresh) => {
                fresh.start();
                proof {
                    reveal_strlit("rainbow");
                    reveal_strlit("srainbow");
                    reveal_strlit("chase");
                    reveal_strlit("off");
                }
                self.current_animation = fresh;
                TransitionOutcome::Started
            },
            None => {
                let mut fresh = Animation::Off(Off::new());
                fresh.start();
                self.current_animation = fresh;
                TransitionOutcome::UnknownFallback
            },
        }
    }

    /// The inter-frame delay the active animation asks for, in
    /// milliseconds.
    pub fn wait_time(&self) -> (r: u64)
        ensures
            r == spec_wait(self.current_animation),
    {
        self.current_animation.wait_time()
    }

    /// The name of the active animation.
    pub fn active_name(&self) -> (r: &'static str)
        ensures
            r@ == spec_name(self.current_animation),
    {
        self.current_animation.name()
    }
}

/// The wire-level name vocabulary: the four animation names resolve in the
/// registry and any other, such as "glorp", does not and falls back.
pub proof fn lemma_registered_names()
    ensures
        registered("rainbow"@),
        registered("srainbow"@),
        registered("chase"@),
        registered("off"@),
        !registered("glorp"@),
{
    reveal_strlit("rainbow");
    reveal_strlit("srainbow");
    reveal_strlit("chase");
    reveal_strlit("off");
    reveal_strlit("glorp");
    assert("glorp"@[0] != "chase"@[0]);
    assert("glorp"@.len() != "rainbow"@.len());
    assert("glorp"@.len() != "srainbow"@.len());
    assert("glorp"@.len() != "off"@.len());
}

} // verus!
