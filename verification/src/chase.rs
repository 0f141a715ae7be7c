use vstd::prelude::*;
use vstd::pervasive::VecAdditionalExecFns;
use crate::pixel::{Pixel, spec_pixel_off, is_off};

verus! {

/// Phase of the chase animation.
#[derive(Clone, Copy, PartialEq, Eq, Structural, Debug)]
pub enum ChasePhase {
    Off,
    BuildUp,
    FadeOut,
}

/// The chase animation. A single pixel of a randomly chosen color travels
/// forward and parks at the far end, over and over, until the strip is
/// full (build-up); then the light drains backward out of the strip
/// (fade-out); with the strip dark again a fresh color is chosen and the
/// cycle repeats, until a stop request lets the fade-out end the run.
pub struct Chase {
    pub status: ChasePhase,
    pub current_index: i32,
    pub strip_length: i32,
    pub color: Pixel,
    pub running: bool,
}

/// Index of the first lit pixel in `s[i..n]`, or -1 when that range is
/// dark.
pub open spec fn first_lit_from(s: Seq<Pixel>, i: int, n: int) -> int
    decreases n - i,
{
    if i < 0 || i >= n {
        -1
    } else if !is_off(s[i]) {
        i
    } else {
        first_lit_from(s, i + 1, n)
    }
}

/// Index of the first lit pixel in `s[0..n]`, or -1 when the range is dark.
pub open spec fn first_lit(s: Seq<Pixel>, n: int) -> int {
    first_lit_from(s, 0, n)
}

/// Strip contents after a build-up step at `idx`: the pixel there takes the
/// chase color and its left neighbour goes dark.
pub open spec fn buildup_strip(pre: Chase, s: Seq<Pixel>) -> Seq<Pixel> {
    let idx = pre.current_index as int;
    if idx > 0 {
        s.update(idx, pre.color).update(idx - 1, spec_pixel_off())
    } else {
        s.update(idx, pre.color)
    }
}

/// Strip contents after a fade-out walk step at `idx`: the pixel there goes
/// dark (when it lies inside the strip range) and its left neighbour takes
/// the chase color.
pub open spec fn fadeout_strip(pre: Chase, s: Seq<Pixel>) -> Seq<Pixel> {
    let idx = pre.current_index as int;
    let cleared = if idx < pre.strip_length {
        s.update(idx, spec_pixel_off())
    } else {
        s
    };
    if idx > 0 {
        cleared.update(idx - 1, pre.color)
    } else {
        cleared
    }
}

/// One build-up tick: while the pixel ahead is dark the single lit pixel
/// advances; a blocked step at slot 0 hands over to the fade-out with the
/// sentinel index; a blocked step further on restarts the travel at slot 0.
/// A build-up tick always reports still-running.
pub open spec fn chase_step_buildup(
    pre: Chase,
    s: Seq<Pixel>,
    post: Chase,
    s2: Seq<Pixel>,
    ret: bool,
) -> bool {
    let run = Chase { running: true, ..pre };
    &&& ret == true
    &&& if 0 <= pre.current_index < pre.strip_length && is_off(s[pre.current_index as int]) {
        &&& post == (Chase { current_index: (pre.current_index + 1) as i32, ..run })
        &&& s2 == buildup_strip(pre, s)
    } else if pre.current_index == 0 {
        &&& post == (Chase { status: ChasePhase::FadeOut, current_index: -1i32, ..run })
        &&& s2 == s
    } else {
        &&& post == (Chase { current_index: 0, ..run })
        &&& s2 == s
    }
}

/// One fade-out tick: a non-negative index walks backward, draining light
/// toward the front; at the sentinel the strip is scanned for the first
/// still-lit pixel, which restarts the walk there; with nothing lit, a
/// still-running chase re-enters the build-up with a fresh color, while a
/// stopped one reports completion and rests.
pub open spec fn chase_step_fadeout(
    pre: Chase,
    s: Seq<Pixel>,
    post: Chase,
    s2: Seq<Pixel>,
    ret: bool,
) -> bool {
    if pre.current_index >= 0 {
        &&& post == (Chase { current_index: (pre.current_index - 1) as i32, ..pre })
        &&& s2 == fadeout_strip(pre, s)
        &&& ret == true
    } else {
        let f = first_lit(s, pre.strip_length as int);
        if f >= 0 {
            &&& post == (Chase { current_index: f as i32, ..pre })
            &&& s2 == s
            &&& ret == true
        } else if pre.running {
            &&& post.status == ChasePhase::BuildUp
            &&& post.current_index == 0
            &&& post.strip_length == pre.strip_length
            &&& post.running == true
            &&& post.color.w == 0
            &&& s2 == s
            &&& ret == true
        } else {
            &&& post == pre
            &&& s2 == s
            &&& ret == false
        }
    }
}

/// One tick of the chase, as a relation: the re-entry into build-up draws a
/// random color, so the post state is not a function of the pre state.
pub open spec fn chase_step(
    pre: Chase,
    s: Seq<Pixel>,
    post: Chase,
    s2: Seq<Pixel>,
    ret: bool,
) -> bool {
    match pre.status {
        ChasePhase::Off => {
            &&& post == (Chase { running: false, ..pre })
            &&& s2 == s
            &&& ret == false
        },
        ChasePhase::BuildUp => chase_step_buildup(pre, s, post, s2, ret),
        ChasePhase::FadeOut => chase_step_fadeout(pre, s, post, s2, ret),
    }
}

/// Relies on rand::random: three channel values drawn from the thread-local
/// generator; nothing is promised of them.
#[verifier::external_body]
fn random_color() -> (c: (u8, u8, u8)) {
    rand::random::<(u8, u8, u8)>()
}

impl Chase {
    /// Well-formed state: the index stays between the sentinel and one past
    /// the last slot.
    pub open spec fn wf(self) -> bool {
        &&& 0 <= self.strip_length
        &&& -1 <= self.current_index <= self.strip_length
    }

    /// A fresh, not yet started instance for the given strip range.
    pub fn new(strip_length: i32) -> (a: Chase)
        ensures
            a == (Chase {
                status: ChasePhase::Off,
                current_index: 0,
                strip_length,
                color: spec_pixel_off(),
                running: false,
            }),
    {
        Chase {
            status: ChasePhase::Off,
            current_index: 0,
            strip_length,
            color: Pixel::off(),
            running: false,
        }
    }

    /// Runs one tick of the chase state machine on the strip.
    pub fn next_frame(&mut self, strip: &mut Vec<Pixel>) -> (still: bool)
        requires
            old(self).wf(),
            old(strip)@.len() >= old(self).strip_length as int,
        ensures
            final(self).wf(),
            final(self).strip_length == old(self).strip_length,
            final(strip)@.len() == old(strip)@.len(),
            chase_step(*old(self), old(strip)@, *final(self), final(strip)@, still),
    {
        match self.status {
            ChasePhase::Off => {
                self.running = false;
                false
            },
            ChasePhase::BuildUp => {
                self.running = true;
                let idx = self.current_index;
                if 0 <= idx && idx < self.strip_length && strip[idx as usize] == Pixel::off() {
                    strip.set(idx as usize, self.color);
                    if idx > 0 {
                        strip.set((idx - 1) as usize, Pixel::off());
                    }
                    self.current_index = idx + 1;
                } else if idx == 0 {
                    self.status = ChasePhase::FadeOut;
                    self.current_index = -1;
                } else {
                    self.current_index = 0;
                }
                true
            },
            ChasePhase::FadeOut => {
                let idx = self.current_index;
                if idx >= 0 {
                    if idx < self.strip_length {
                        strip.set(idx as usize, Pixel::off());
                    }
                    if idx > 0 {
                        strip.set((idx - 1) as usize, self.color);
                    }
                    self.current_index = idx - 1;
                    true
                } else {
                    let n = self.strip_length as usize;
                    let mut i: usize = 0;
                    let mut found: i32 = -1;
                    while i < n && found == -1
                        invariant
                            *self == *old(self),
                            old(self).wf(),
                            old(self).status == ChasePhase::FadeOut,
                            strip@ == old(strip)@,
                            n == self.strip_length as usize,
                            n <= strip@.len(),
                            0 <= i <= n,
                            found == -1 || (0 <= found < n && found == first_lit(
                                strip@,
                                n as int,
                            )),
                            found == -1 ==> first_lit(strip@, n as int) == first_lit_from(
                                strip@,
                                i as int,
                                n as int,
                            ),
                        decreases n - i, (if found == -1 { 1int } else { 0int }),
                    {
                        if strip[i] != Pixel::off() {
                            found = i as i32;
                        } else {
                            i += 1;
                        }
                    }
                    if found >= 0 {
                        self.current_index = found;
                        true
                    } else if self.running {
                        let c = random_color();
                        self.color = Pixel::rgb(c.0, c.1, c.2);
                        self.current_index = 0;
                        self.status = ChasePhase::BuildUp;
                        true
                    } else {
                        false
                    }
                }
            },
        }
    }

    /// Begins a run with a freshly drawn color.
    pub fn start(&mut self)
        ensures
            final(self).status == ChasePhase::BuildUp,
            final(self).running == true,
            final(self).current_index == old(self).current_index,
            final(self).strip_length == old(self).strip_length,
            final(self).color.w == 0,
    {
        let c = random_color();
        self.running = true;
        self.status = ChasePhase::BuildUp;
        self.color = Pixel::rgb(c.0, c.1, c.2);
    }

    /// Requests a halt: the fade-out finishes draining the strip and the
    /// cleared running flag keeps the final scan from restarting the cycle.
    pub fn stop(&mut self)
        ensures
            *final(self) == (Chase {
                running: false,
                status: ChasePhase::FadeOut,
                ..*old(self)
            }),
    {
        self.running = false;
        self.status = ChasePhase::FadeOut;
    }

    /// True once the animation is winding down (or was never started).
    pub fn stopping(&self) -> (r: bool)
        ensures
            r == !self.running,
    {
        !self.running
    }

    /// Registry name of this animation.
    pub fn name(&self) -> (r: &'static str)
        ensures
            r@ == "chase"@,
    {
        "chase"
    }

    /// Inter-frame delay in milliseconds.
    pub fn wait_time(&self) -> (r: u64)
        ensures
            r == 10,
    {
        10
    }
}

/// The state after one fade-out walk tick: the index moves back by one.
pub open spec fn chase_walk_state(a: Chase) -> Chase {
    Chase { current_index: (a.current_index - 1) as i32, ..a }
}

/// The state after `k` fade-out walk ticks.
pub open spec fn chase_walk_iter_state(a: Chase, k: nat) -> Chase
    decreases k,
{
    if k == 0 {
        a
    } else {
        chase_walk_state(chase_walk_iter_state(a, (k - 1) as nat))
    }
}

/// The strip after `k` fade-out walk ticks.
pub open spec fn chase_walk_iter_strip(a: Chase, s: Seq<Pixel>, k: nat) -> Seq<Pixel>
    decreases k,
{
    if k == 0 {
        s
    } else {
        fadeout_strip(
            chase_walk_iter_state(a, (k - 1) as nat),
            chase_walk_iter_strip(a, s, (k - 1) as nat),
        )
    }
}

/// While the walk index is non-negative a fade-out tick is deterministic:
/// exactly the walk step, always reporting still-running.
pub proof fn lemma_chase_walk_step_matches(
    a: Chase,
    s: Seq<Pixel>,
    post: Chase,
    s2: Seq<Pixel>,
    ret: bool,
)
    requires
        a.status == ChasePhase::FadeOut,
        a.current_index >= 0,
        chase_step(a, s, post, s2, ret),
    ensures
        post == chase_walk_state(a),
        s2 == fadeout_strip(a, s),
        ret == true,
{
}

/// A fade-out walk from index `k` reaches the sentinel in exactly `k + 1`
/// ticks, reporting still-running on each, and drains the slots behind the
/// walk: after `t` ticks the slots it has passed are dark and the slots
/// ahead of the start are untouched.
pub proof fn lemma_chase_fadeout_walk_drains(a: Chase, s: Seq<Pixel>, t: nat)
    requires
        a.wf(),
        a.status == ChasePhase::FadeOut,
        a.current_index >= 0,
        s.len() >= a.strip_length as int,
        t <= a.current_index + 1,
    ensures
        chase_walk_iter_state(a, t) == (Chase {
            current_index: (a.current_index - t) as i32,
            ..a
        }),
        chase_walk_iter_strip(a, s, t).len() == s.len(),
        forall|i: int|
            a.current_index - t < i <= a.current_index && 0 <= i < a.strip_length ==> is_off(
                chase_walk_iter_strip(a, s, t)[i],
            ),
        forall|i: int|
            a.current_index < i < s.len() ==> chase_walk_iter_strip(a, s, t)[i] == s[i],
    decreases t,
{
    if t > 0 {
        lemma_chase_fadeout_walk_drains(a, s, (t - 1) as nat);
    }
}

/// The state after one build-up travel tick: the index moves forward by
/// one.
pub open spec fn chase_travel_state(a: Chase) -> Chase {
    Chase { current_index: (a.current_index + 1) as i32, ..a }
}

/// The state after `k` build-up travel ticks.
pub open spec fn chase_travel_iter_state(a: Chase, k: nat) -> Chase
    decreases k,
{
    if k == 0 {
        a
    } else {
        chase_travel_state(chase_travel_iter_state(a, (k - 1) as nat))
    }
}

/// The strip after `k` build-up travel ticks.
pub open spec fn chase_travel_iter_strip(a: Chase, s: Seq<Pixel>, k: nat) -> Seq<Pixel>
    decreases k,
{
    if k == 0 {
        s
    } else {
        buildup_strip(
            chase_travel_iter_state(a, (k - 1) as nat),
            chase_travel_iter_strip(a, s, (k - 1) as nat),
        )
    }
}

/// While the pixel ahead is dark a build-up tick of a running chase is
/// deterministic: exactly the travel step, always reporting still-running.
pub proof fn lemma_chase_travel_step_matches(
    a: Chase,
    s: Seq<Pixel>,
    post: Chase,
    s2: Seq<Pixel>,
    ret: bool,
)
    requires
        a.status == ChasePhase::BuildUp,
        a.running,
        0 <= a.current_index < a.strip_length,
        is_off(s[a.current_index as int]),
        chase_step(a, s, post, s2, ret),
    ensures
        post == chase_travel_state(a),
        s2 == buildup_strip(a, s),
        ret == true,
{
}

/// Build-up travel: over a dark stretch the single lit pixel advances one
/// slot per tick, reporting still-running on each tick; after `t` ticks it
/// sits at the last slot passed, everything behind it is dark, and the
/// slots ahead are untouched.
pub proof fn lemma_chase_buildup_travels(a: Chase, s: Seq<Pixel>, t: nat)
    requires
        a.wf(),
        a.status == ChasePhase::BuildUp,
        a.running,
        0 <= a.current_index,
        s.len() >= a.strip_length as int,
        a.current_index + t <= a.strip_length,
        forall|i: int| a.current_index <= i < a.current_index + t ==> is_off(s[i]),
    ensures
        chase_travel_iter_state(a, t) == (Chase {
            current_index: (a.current_index + t) as i32,
            ..a
        }),
        chase_travel_iter_strip(a, s, t).len() == s.len(),
        t > 0 ==> chase_travel_iter_strip(a, s, t)[a.current_index + t - 1] == a.color,
        forall|i: int|
            0 <= i && a.current_index - 1 <= i && i < a.current_index + t - 1 ==> is_off(
                chase_travel_iter_strip(a, s, t)[i],
            ),
        forall|i: int|
            0 <= i < s.len() && (i < a.current_index - 1 || a.current_index + t - 1 < i)
                ==> chase_travel_iter_strip(a, s, t)[i] == s[i],
    decreases t,
{
    if t > 0 {
        lemma_chase_buildup_travels(a, s, (t - 1) as nat);
    }
}

/// A dark range has no first lit pixel.
pub proof fn lemma_first_lit_from_all_off(s: Seq<Pixel>, i: int, n: int)
    requires
        forall|j: int| i <= j < n ==> is_off(s[j]),
    ensures
        first_lit_from(s, i, n) == -1,
    decreases n - i,
{
    if 0 <= i && i < n {
        lemma_first_lit_from_all_off(s, i + 1, n);
    }
}

/// A stopped chase whose fade-out walk is exhausted and whose strip range
/// is dark reports completion and rests: the scan finds nothing and the
/// cleared running flag keeps the build-up from re-entering.
pub proof fn lemma_chase_stopped_dark_is_terminal(
    a: Chase,
    s: Seq<Pixel>,
    post: Chase,
    s2: Seq<Pixel>,
    ret: bool,
)
    requires
        a.status == ChasePhase::FadeOut,
        a.current_index < 0,
        !a.running,
        forall|i: int| 0 <= i < a.strip_length ==> is_off(s[i]),
        chase_step(a, s, post, s2, ret),
    ensures
        ret == false,
        post == a,
        s2 == s,
{
    lemma_first_lit_from_all_off(s, 0, a.strip_length as int);
}

/// A chase stopped during its fade-out walk, with no light ahead of the
/// walk, drains everything it passes: the walk reaches the sentinel with
/// the whole strip range dark, and the scan tick that follows reports
/// completion and rests.
pub proof fn lemma_chase_stop_walk_finishes(
    a: Chase,
    s: Seq<Pixel>,
    post: Chase,
    s2: Seq<Pixel>,
    ret: bool,
)
    requires
        a.wf(),
        a.status == ChasePhase::FadeOut,
        !a.running,
        a.current_index >= 0,
        s.len() >= a.strip_length as int,
        forall|i: int| a.current_index < i < a.strip_length ==> is_off(s[i]),
        chase_step(
            chase_walk_iter_state(a, (a.current_index + 1) as nat),
            chase_walk_iter_strip(a, s, (a.current_index + 1) as nat),
            post,
            s2,
            ret,
        ),
    ensures
        chase_walk_iter_state(a, (a.current_index + 1) as nat).current_index == -1,
        ret == false,
        post == chase_walk_iter_state(a, (a.current_index + 1) as nat),
        s2 == chase_walk_iter_strip(a, s, (a.current_index + 1) as nat),
{
    let t = (a.current_index + 1) as nat;
    lemma_chase_fadeout_walk_drains(a, s, t);
    let es = chase_walk_iter_state(a, t);
    let ss = chase_walk_iter_strip(a, s, t);
    assert forall|i: int| 0 <= i < es.strip_length implies is_off(ss[i]) by {
        if i <= a.current_index {
            assert(a.current_index - t < i <= a.current_index);
        } else {
            assert(ss[i] == s[i]);
        }
    };
    lemma_chase_stopped_dark_is_terminal(es, ss, post, s2, ret);
}

/// A running chase whose fade-out has drained the strip re-enters the
/// build-up with a fresh color and keeps reporting still-running.
pub proof fn lemma_chase_cycle_restarts(
    a: Chase,
    s: Seq<Pixel>,
    post: Chase,
    s2: Seq<Pixel>,
    ret: bool,
)
    requires
        a.status == ChasePhase::FadeOut,
        a.current_index < 0,
        a.running,
        forall|i: int| 0 <= i < a.strip_length ==> is_off(s[i]),
        chase_step(a, s, post, s2, ret),
    ensures
        post.status == ChasePhase::BuildUp,
        post.current_index == 0,
        post.running == true,
        ret == true,
{
    lemma_first_lit_from_all_off(s, 0, a.strip_length as int);
}

} // verus!
