use vstd::prelude::*;

verus! {

/// The run of frames of a sprite sheet that one animation plays.
///
/// A looping animation counts up from `first` to `last` and starts over at
/// `first`. A ping-pong animation counts up to `last`, then back down to
/// `first`, then up again; `is_back` says that it is on its way down.
pub struct AnimationIndices {
    pub first: usize,
    pub last: usize,
    pub ping_pong: bool,
    pub is_back: bool,
}

/// What one tick of an animation timer does to a sprite.
#[derive(PartialEq, Eq, Structural, Clone, Copy, Debug)]
pub enum FrameStep {
    /// The sprite shows this frame next.
    Advance(usize),
    /// A looping animation was on its last frame and starts over at this
    /// frame. The animation pass of this tick ends with this sprite: sprites
    /// that come after it keep their frame until the next tick.
    Restart(usize),
}

impl FrameStep {
    /// The frame that the sprite shows after the step.
    pub open spec fn frame(self) -> int {
        match self {
            FrameStep::Advance(i) => i as int,
            FrameStep::Restart(i) => i as int,
        }
    }
}

/// The animation runs backwards on this tick: it is a ping-pong animation
/// that is on its way down or has just reached its last frame.
pub open spec fn goes_back(a: AnimationIndices, index: int) -> bool {
    a.ping_pong && (a.is_back || index == a.last)
}

/// A looping animation on its last frame: the next tick starts it over.
pub open spec fn restarts(a: AnimationIndices, index: int) -> bool {
    !a.ping_pong && index == a.last
}

/// The frame shown after one tick, from frame `index`.
pub open spec fn next_frame(a: AnimationIndices, index: int) -> int {
    if restarts(a, index) {
        a.first as int
    } else if goes_back(a, index) {
        index - 1
    } else {
        index + 1
    }
}

/// The animation's state after one tick, from frame `index`.
pub open spec fn next_indices(a: AnimationIndices, index: int) -> AnimationIndices {
    if goes_back(a, index) {
        AnimationIndices { is_back: index - 1 != a.first, ..a }
    } else {
        a
    }
}

/// One tick from frame `index` stays within the range of `usize`.
pub open spec fn can_advance(a: AnimationIndices, index: int) -> bool {
    if restarts(a, index) {
        true
    } else if goes_back(a, index) {
        index > 0
    } else {
        index < usize::MAX
    }
}

/// Frame `index` lies in the animation's run, and the state is one that the
/// animation reaches by playing: a ping-pong run has at least two frames and
/// only runs backwards above its first frame.
pub open spec fn in_run(a: AnimationIndices, index: int) -> bool {
    &&& a.first <= index <= a.last
    &&& a.ping_pong ==> a.first < a.last
    &&& a.ping_pong && a.is_back ==> a.first < index
}

impl AnimationIndices {
    /// A ping-pong animation over the frames `first..=last`, on its way up.
    pub fn from_ping_pong(first: usize, last: usize) -> (a: Self)
        ensures
            a == (AnimationIndices { first, last, ping_pong: true, is_back: false }),
    {
        AnimationIndices { first, last, ping_pong: true, is_back: false }
    }

    /// A looping animation over the frames `first..=last`.
    pub fn from_normal(first: usize, last: usize) -> (a: Self)
        ensures
            a == (AnimationIndices { first, last, ping_pong: false, is_back: false }),
    {
        AnimationIndices { first, last, ping_pong: false, is_back: false }
    }

    /// Plays one tick of the animation on a sprite that shows frame `index`.
    ///
    /// A looping animation on its last frame restarts at its first frame; any
    /// other looping frame moves up by one. A ping-pong animation turns back
    /// on its last frame, counts down while it is on its way back, and turns
    /// up again once it reaches its first frame.
    pub fn advance_frame(&mut self, index: usize) -> (step: FrameStep)
        requires
            can_advance(*old(self), index as int),
        ensures
            *final(self) == next_indices(*old(self), index as int),
            step.frame() == next_frame(*old(self), index as int),
            step is Restart <==> restarts(*old(self), index as int),
    {
        if index == self.last {
            if self.ping_pong {
                self.is_back = true;
            } else {
                return FrameStep::Restart(self.first);
            }
        }
        if self.ping_pong {
            if self.is_back {
                let next = index - 1;
                if next == self.first {
                    self.is_back = false;
                }
                FrameStep::Advance(next)
            } else {
                FrameStep::Advance(index + 1)
            }
        } else {
            FrameStep::Advance(index + 1)
        }
    }
}

impl AnimationIndices {
    /// Plays one tick like `advance_frame`, or returns `None`, changing
    /// nothing, when the next frame number would leave the range of `usize`.
    pub fn try_advance_frame(&mut self, index: usize) -> (step: Option<FrameStep>)
        ensures
            step is None <==> !can_advance(*old(self), index as int),
            step is None ==> *final(self) == *old(self),
            step matches Some(s) ==> {
                &&& *final(self) == next_indices(*old(self), index as int)
                &&& s.frame() == next_frame(*old(self), index as int)
                &&& (s is Restart <==> restarts(*old(self), index as int))
            },
    {
        let restarts = !self.ping_pong && index == self.last;
        let goes_back = self.ping_pong && (self.is_back || index == self.last);
        if !restarts && ((goes_back && index == 0) || (!goes_back && index == usize::MAX)) {
            None
        } else {
            Some(self.advance_frame(index))
        }
    }
}

/// A sprite whose frame lies in its animation's run keeps it there: the next
/// tick is always possible and lands in the run again.
pub proof fn lemma_frame_stays_in_run(a: AnimationIndices, index: int)
    requires
        in_run(a, index),
    ensures
        can_advance(a, index),
        in_run(next_indices(a, index), next_frame(a, index)),
{
}

/// A sprite below its animation's first frame climbs up by one frame per tick.
pub proof fn lemma_frame_climbs_to_run(a: AnimationIndices, index: int)
    requires
        0 <= index < a.first <= a.last,
        !a.is_back,
    ensures
        can_advance(a, index),
        next_frame(a, index) == index + 1,
        next_indices(a, index) == a,
{
}


/// The animation's state and frame after `n` ticks from frame `index`.
pub open spec fn play(a: AnimationIndices, index: int, n: nat) -> (AnimationIndices, int)
    decreases n,
{
    if n == 0 {
        (a, index)
    } else {
        play(next_indices(a, index), next_frame(a, index), (n - 1) as nat)
    }
}

proof fn lemma_play_split(a: AnimationIndices, index: int, m: nat, n: nat)
    ensures
        play(a, index, m + n) == play(play(a, index, m).0, play(a, index, m).1, n),
    decreases m,
{
    if m > 0 {
        lemma_play_split(next_indices(a, index), next_frame(a, index), (m - 1) as nat, n);
        assert((m + n - 1) as nat == ((m - 1) as nat + n) as nat);
    }
}

proof fn lemma_play_climbs(a: AnimationIndices, index: int, k: nat)
    requires
        a.first <= index,
        index + k <= a.last,
        !a.ping_pong || !a.is_back,
    ensures
        play(a, index, k) == (a, index + k),
    decreases k,
{
    if k > 0 {
        lemma_play_climbs(a, index + 1, (k - 1) as nat);
    }
}

proof fn lemma_play_descends(a: AnimationIndices, index: int, k: nat)
    requires
        a.ping_pong,
        a.is_back,
        a.first < index,
        index - k >= a.first,
    ensures
        play(a, index, k) == (AnimationIndices { is_back: index - k != a.first, ..a }, index - k),
    decreases k,
{
    if k > 0 {
        if index - 1 != a.first {
            assert(next_indices(a, index) == a);
            lemma_play_descends(a, index - 1, (k - 1) as nat);
        } else {
            let b = next_indices(a, index);
            assert(play(b, index - 1, 0) == (b, index - 1));
        }
    }
}

/// A looping animation shows each frame of its run once per cycle: after as
/// many ticks as the run has frames, a sprite is back at the frame it showed.
pub proof fn lemma_loop_period(a: AnimationIndices, index: int)
    requires
        !a.ping_pong,
        a.first <= index <= a.last,
    ensures
        play(a, index, (a.last - a.first + 1) as nat) == (a, index),
{
    let up = (a.last - index) as nat;
    let rest = (index - a.first) as nat;
    lemma_play_climbs(a, index, up);
    lemma_play_split(a, index, up, 1);
    assert(play(a, a.last as int, 1) == (a, a.first as int)) by {
        assert(play(a, a.first as int, 0) == (a, a.first as int));
    }
    lemma_play_climbs(a, a.first as int, rest);
    lemma_play_split(a, index, up + 1, rest);
    assert(up + 1 + rest == a.last - a.first + 1);
}

/// A ping-pong animation that starts on its first frame on its way up is
/// back there, on its way up, after twice as many ticks as its run has steps:
/// it climbs to its last frame and comes back down.
pub proof fn lemma_ping_pong_period(a: AnimationIndices)
    requires
        a.ping_pong,
        !a.is_back,
        a.first < a.last,
    ensures
        play(a, a.first as int, (2 * (a.last - a.first)) as nat) == (a, a.first as int),
{
    let l = (a.last - a.first) as nat;
    lemma_play_climbs(a, a.first as int, l);
    let down = AnimationIndices { is_back: a.last - 1 != a.first, ..a };
    assert(play(a, a.last as int, 1) == (down, a.last - 1)) by {
        assert(play(down, a.last - 1, 0) == (down, a.last - 1));
    }
    lemma_play_split(a, a.first as int, l, 1);
    if l > 1 {
        lemma_play_descends(down, a.last - 1, (l - 1) as nat);
        assert(AnimationIndices { is_back: a.last - 1 - (l - 1) != a.first, ..down } == a);
        lemma_play_split(a, a.first as int, l + 1, (l - 1) as nat);
        assert(l + 1 + (l - 1) == 2 * l);
    } else {
        assert(down == a);
    }
}

/// How far above its first frame a ping-pong animation stands `m` ticks into
/// its cycle over a run of `l` steps: it climbs for `l` ticks, then descends.
pub open spec fn ping_pong_offset(l: int, m: int) -> int {
    if m <= l { m } else { 2 * l - m }
}

/// A ping-pong animation that starts on its first frame on its way up stands,
/// after any number `k` of ticks, `ping_pong_offset` frames above its first
/// frame, `k` taken modulo the period: it bounces between its first and last
/// frames, and it is on its way back exactly in the second half of the period.
pub proof fn lemma_ping_pong_position(a: AnimationIndices, k: nat)
    requires
        a.ping_pong,
        !a.is_back,
        a.first < a.last,
    ensures
        ({
            let l = a.last - a.first;
            let m = (k as int) % (2 * l);
            play(a, a.first as int, k) == (
                AnimationIndices { is_back: m > l, ..a },
                a.first + ping_pong_offset(l, m),
            )
        }),
    decreases k,
{
    let l = a.last - a.first;
    let p = (2 * l) as nat;
    if k >= p {
        lemma_ping_pong_period(a);
        lemma_play_split(a, a.first as int, p, (k - p) as nat);
        lemma_ping_pong_position(a, (k - p) as nat);
        vstd::arithmetic::div_mod::lemma_mod_sub_multiples_vanish(k as int, 2 * l);
        assert(k - p == -(2 * l) + (k as int));
    } else {
        assert((k as int) % (2 * l) == k) by {
            vstd::arithmetic::div_mod::lemma_small_mod(k, p);
        }
        if k <= l {
            lemma_play_climbs(a, a.first as int, k);
            assert(AnimationIndices { is_back: false, ..a } == a);
        } else {
            let lu = l as nat;
            lemma_play_climbs(a, a.first as int, lu);
            let down = AnimationIndices { is_back: a.last - 1 != a.first, ..a };
            assert(play(a, a.last as int, 1) == (down, a.last - 1)) by {
                assert(play(down, a.last - 1, 0) == (down, a.last - 1));
            }
            lemma_play_split(a, a.first as int, lu, 1);
            assert(down.is_back);
            lemma_play_descends(down, a.last - 1, (k - lu - 1) as nat);
            lemma_play_split(a, a.first as int, lu + 1, (k - lu - 1) as nat);
            assert(lu + 1 + (k - lu - 1) == k);
            assert(AnimationIndices { is_back: a.last - 1 - (k - lu - 1) != a.first, ..down }
                == AnimationIndices { is_back: true, ..a });
        }
    }
}

} // verus!
