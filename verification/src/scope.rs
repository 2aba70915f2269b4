//! The scope trigger and decimation engine: turns the unbounded stream
//! of published snapshots into a stable, centered, fixed-width
//! waveform for display.
//!
//! Each ingested snapshot is appended to a bounded rolling history.
//! A hysteresis-gated zero crossing is searched for in the window that
//! leaves half a display of samples on either side; the display window
//! is centered on the crossing (or on the midpoint of the data when no
//! crossing exists) and decimated by nearest-sample selection into the
//! fixed display width.  When history is still too short, the samples
//! are centered in the display and the rest is zero-filled.

use vstd::prelude::*;

verus! {

use crate::fixed::{UNIT, HALF_UNIT};
use crate::source::{ScopeBuffer, ScopeSource};
use crate::wave::saw_at;

/// Number of display points of the scope.
pub const DISPLAY_WIDTH: usize = 188;

/// Hysteresis threshold a crossing must clear, in fixed-point
/// amplitude: 0.02 of full scale.
pub const DEFAULT_TRIGGER_THRESHOLD: i64 = 20_000;

/// The rolling raw history keeps this many displays' worth of samples.
pub const RAW_HISTORY_FACTOR: usize = 4;

/// Largest display width the engine accepts; keeps every index
/// computation inside machine bounds on any platform.
pub const MAX_DISPLAY_WIDTH: usize = 8192;

/// Zero-crossing detection mode.
#[derive(Clone, Copy, Debug, PartialEq, Eq, Structural)]
pub enum TriggerMode {
    /// Trigger on a negative-to-positive crossing.
    RisingEdge,
    /// Trigger on a positive-to-negative crossing.
    FallingEdge,
}

/// Whether the sample at `j` arms the trigger: below the negative
/// threshold for a rising edge, above the positive for a falling one.
pub open spec fn arms(s: Seq<i64>, th: int, mode: TriggerMode, j: int) -> bool {
    match mode {
        TriggerMode::RisingEdge => s[j] < -th,
        TriggerMode::FallingEdge => s[j] > th,
    }
}

/// Whether the sample at `i` fires an armed trigger: the opposite
/// threshold of the arming one.
pub open spec fn fires(s: Seq<i64>, th: int, mode: TriggerMode, i: int) -> bool {
    match mode {
        TriggerMode::RisingEdge => s[i] > th,
        TriggerMode::FallingEdge => s[i] < -th,
    }
}

/// Whether the scan arriving at `i` from `start` triggers there: some
/// sample at or before `i` armed it, and the sample at `i` fires.
pub open spec fn triggers_at(s: Seq<i64>, th: int, mode: TriggerMode, start: int, i: int) -> bool {
    fires(s, th, mode, i) && exists|j: int| start <= j <= i && #[trigger] arms(s, th, mode, j)
}

/// First index of the search window: half a display into the history,
/// so the left half of the display exists for any found trigger.
pub open spec fn search_start(w: int) -> int {
    w / 2
}

/// One-past-last index of the search window: half a display before the
/// end of the history.
pub open spec fn search_end(s: Seq<i64>, w: int) -> int {
    if s.len() >= w / 2 {
        s.len() - w / 2
    } else {
        0
    }
}

/// Whether the window is worth scanning at all.
pub open spec fn search_performed(s: Seq<i64>, w: int) -> bool {
    search_start(w) < search_end(s, w) && search_end(s, w) >= 2
}

/// The fallback when no crossing is found: the midpoint of the
/// available data.
pub open spec fn fallback_point(s: Seq<i64>) -> int {
    s.len() as int / 2
}

/// Whether a hysteresis-gated crossing exists in the search window.
pub open spec fn has_trigger(s: Seq<i64>, th: int, mode: TriggerMode, w: int) -> bool {
    search_performed(s, w) && exists|i: int|
        search_start(w) <= i < search_end(s, w) && #[trigger] triggers_at(
            s,
            th,
            mode,
            search_start(w),
            i,
        )
}

/// What the trigger search returns: the first crossing in the window
/// when one exists, the fallback midpoint otherwise.  Exactly one
/// index satisfies this predicate (see
/// [`lemma_trigger_point_unique`]).
pub open spec fn is_trigger_point(s: Seq<i64>, th: int, mode: TriggerMode, w: int, t: int) -> bool {
    if has_trigger(s, th, mode, w) {
        &&& search_start(w) <= t < search_end(s, w)
        &&& triggers_at(s, th, mode, search_start(w), t)
        &&& forall|k: int|
            search_start(w) <= k < t ==> !#[trigger] triggers_at(s, th, mode, search_start(w), k)
    } else {
        t == fallback_point(s)
    }
}

/// Law: the trigger search result is fully determined — two indices
/// both satisfying [`is_trigger_point`] are equal.
pub proof fn lemma_trigger_point_unique(
    s: Seq<i64>,
    th: int,
    mode: TriggerMode,
    w: int,
    t1: int,
    t2: int,
)
    requires
        is_trigger_point(s, th, mode, w, t1),
        is_trigger_point(s, th, mode, w, t2),
    ensures
        t1 == t2,
{
    if has_trigger(s, th, mode, w) {
        if t1 < t2 {
            assert(!triggers_at(s, th, mode, search_start(w), t1));
        }
        if t2 < t1 {
            assert(!triggers_at(s, th, mode, search_start(w), t2));
        }
    }
}

/// Law: on a sampled saw ramp, a rising-edge trigger always fires on
/// the upper half of the ramp.  The saw's one discontinuity, the
/// downward jump from the top of the ramp to minus full scale at the
/// wrap, can arm the trigger but never fire it: firing needs a sample
/// above the positive threshold, and the saw only exceeds it past the
/// middle of its cycle, where the wrapped sample never lies.
pub proof fn lemma_saw_rising_trigger_fires_on_ramp(
    s: Seq<i64>,
    phases: Seq<int>,
    th: int,
    w: int,
    t: int,
)
    requires
        w >= 0,
        s.len() == phases.len(),
        forall|i: int| 0 <= i < s.len() ==> 0 <= #[trigger] phases[i] < UNIT,
        forall|i: int| 0 <= i < s.len() ==> s[i] == saw_at(#[trigger] phases[i]),
        th >= 0,
        has_trigger(s, th, TriggerMode::RisingEdge, w),
        is_trigger_point(s, th, TriggerMode::RisingEdge, w, t),
    ensures
        s[t] > th,
        phases[t] > (UNIT + th) / 2,
        phases[t] > HALF_UNIT,
{
    assert(search_start(w) <= t < search_end(s, w));
    assert(fires(s, th, TriggerMode::RisingEdge, t));
    assert(s[t] == saw_at(phases[t]));
}

/// The scope engine's state: raw history, display buffer, and the
/// trigger configuration fixed at construction.
pub struct Scope {
    /// The decimated display buffer, always exactly `display_width`
    /// samples.
    pub display_points: Vec<i64>,
    /// The rolling raw history; holds at most `RAW_HISTORY_FACTOR`
    /// displays' worth of samples.
    pub raw_buffer: Vec<i64>,
    /// Width of the display buffer in samples.
    pub display_width: usize,
    /// Which edge the trigger fires on.
    pub trigger_mode: TriggerMode,
    /// Hysteresis threshold of the trigger, non-negative.
    pub trigger_threshold: i64,
    /// Counter bumped on every ingest, so a renderer can tell whether
    /// a new frame is ready.
    pub generation: u64,
    /// Optional shared source polled for new snapshots.
    pub source: Option<ScopeSource>,
}

/// The generation counter after one more ingest.
pub open spec fn spec_next_generation(g: u64) -> u64 {
    if g == u64::MAX {
        0u64
    } else {
        (g + 1) as u64
    }
}

impl Scope {
    /// The engine's invariant: the display buffer has exactly the
    /// display width, the width is sane, and the threshold is
    /// non-negative.
    pub open spec fn wf(self) -> bool {
        &&& self.display_points@.len() == self.display_width
        &&& 2 <= self.display_width <= MAX_DISPLAY_WIDTH
        &&& 0 <= self.trigger_threshold
    }

    /// A fresh scope: zeroed display, empty history, rising-edge
    /// trigger at the default threshold.
    pub fn new() -> (sc: Scope)
        ensures
            sc.wf(),
            sc.display_width == DISPLAY_WIDTH,
            sc.display_points@ == Seq::new(DISPLAY_WIDTH as nat, |i: int| 0i64),
            sc.raw_buffer@.len() == 0,
            sc.trigger_mode == TriggerMode::RisingEdge,
            sc.trigger_threshold == DEFAULT_TRIGGER_THRESHOLD,
            sc.generation == 0,
            sc.source is None,
    {
        let display_points: Vec<i64> = vec![0i64; DISPLAY_WIDTH];
        proof {
            assert(display_points@ =~= Seq::new(DISPLAY_WIDTH as nat, |i: int| 0i64));
        }
        Scope {
            display_points,
            raw_buffer: Vec::new(),
            display_width: DISPLAY_WIDTH,
            trigger_mode: TriggerMode::RisingEdge,
            trigger_threshold: DEFAULT_TRIGGER_THRESHOLD,
            generation: 0,
            source: None,
        }
    }

    /// Attach a source to poll during animation frames.
    pub fn with_source(self, source: ScopeSource) -> (sc: Scope)
        ensures
            sc == (Scope { source: Some(source), ..self }),
    {
        Scope { source: Some(source), ..self }
    }

    /// Replace the polled source.  The handle now watches a different
    /// underlying stream, so the raw history gathered from the old one
    /// is stale and is discarded; the display keeps its last rendering
    /// until the new stream delivers.
    pub fn set_source(&mut self, source: ScopeSource)
        ensures
            final(self).source == Some(source),
            final(self).raw_buffer@ == Seq::<i64>::empty(),
            final(self).display_points == old(self).display_points,
            final(self).display_width == old(self).display_width,
            final(self).trigger_mode == old(self).trigger_mode,
            final(self).trigger_threshold == old(self).trigger_threshold,
            final(self).generation == old(self).generation,
    {
        self.raw_buffer.clear();
        self.source = Some(source);
    }

    /// Adjust the hysteresis threshold; a negative one is clamped to
    /// zero rather than refused.
    pub fn with_trigger_threshold(self, threshold: i64) -> (sc: Scope)
        ensures
            sc == (Scope {
                trigger_threshold: if threshold < 0 {
                    0i64
                } else {
                    threshold
                },
                ..self
            }),
    {
        let th: i64 = if threshold < 0 {
            0
        } else {
            threshold
        };
        Scope { trigger_threshold: th, ..self }
    }

    /// Find the stable trigger point of the current raw history: the
    /// first hysteresis-gated crossing in the search window, or the
    /// midpoint of the available data when there is none.
    pub fn find_trigger_point(&self) -> (t: usize)
        requires
            self.wf(),
        ensures
            is_trigger_point(
                self.raw_buffer@,
                self.trigger_threshold as int,
                self.trigger_mode,
                self.display_width as int,
                t as int,
            ),
            self.raw_buffer@.len() > 0 ==> t < self.raw_buffer@.len(),
            self.raw_buffer@.len() == 0 ==> t == 0,
    {
        let ghost s = self.raw_buffer@;
        let ghost th_g = self.trigger_threshold as int;
        let ghost w_g = self.display_width as int;
        let th: i64 = self.trigger_threshold;
        let len: usize = self.raw_buffer.len();
        let half: usize = self.display_width / 2;
        let start: usize = half;
        let end: usize = if len >= half {
            len - half
        } else {
            0
        };
        if start < end && end >= 2 {
            let mut armed: bool = false;
            let mut i: usize = start;
            while i < end
                invariant
                    self.wf(),
                    s == self.raw_buffer@,
                    th == self.trigger_threshold,
                    th_g == th as int,
                    w_g == self.display_width as int,
                    start == search_start(w_g),
                    end == search_end(s, w_g),
                    start <= i <= end,
                    end <= s.len(),
                    armed == exists|j: int|
                        start <= j < i && #[trigger] arms(s, th_g, self.trigger_mode, j),
                    forall|k: int|
                        start <= k < i ==> !#[trigger] triggers_at(
                            s,
                            th_g,
                            self.trigger_mode,
                            start as int,
                            k,
                        ),
                decreases end - i,
            {
                let v: i64 = self.raw_buffer[i];
                let is_arm: bool = match self.trigger_mode {
                    TriggerMode::RisingEdge => v < -th,
                    TriggerMode::FallingEdge => v > th,
                };
                if is_arm {
                    armed = true;
                    proof {
                        assert(arms(s, th_g, self.trigger_mode, i as int));
                    }
                }
                proof {
                    assert(armed == exists|j: int|
                        start <= j <= i && #[trigger] arms(s, th_g, self.trigger_mode, j));
                }
                let is_fire: bool = match self.trigger_mode {
                    TriggerMode::RisingEdge => v > th,
                    TriggerMode::FallingEdge => v < -th,
                };
                if armed && is_fire {
                    proof {
                        assert(triggers_at(s, th_g, self.trigger_mode, start as int, i as int));
                        assert(has_trigger(s, th_g, self.trigger_mode, w_g));
                    }
                    return i;
                }
                proof {
                    assert(!triggers_at(s, th_g, self.trigger_mode, start as int, i as int));
                }
                i = i + 1;
            }
            proof {
                assert(!has_trigger(s, th_g, self.trigger_mode, w_g));
            }
        } else {
            proof {
                assert(!search_performed(s, w_g));
            }
        }
        len / 2
    }
}

/// The raw history after appending a snapshot: the newest
/// `RAW_HISTORY_FACTOR` displays' worth of samples, oldest dropped
/// first.
pub open spec fn spec_raw_after(old_raw: Seq<i64>, incoming: Seq<i64>, w: int) -> Seq<i64> {
    let combined = old_raw + incoming;
    let cap = (RAW_HISTORY_FACTOR as int) * w;
    if combined.len() > cap {
        combined.skip(combined.len() - cap)
    } else {
        combined
    }
}

/// Left edge of the display window: half a display before the trigger,
/// clipped at the start of the history.
pub open spec fn clipped_start(t: int, w: int) -> int {
    if t >= w / 2 {
        t - w / 2
    } else {
        0
    }
}

/// Right edge of the display window: half a display after the trigger,
/// clipped at the end of the history.
pub open spec fn clipped_end(s: Seq<i64>, t: int, w: int) -> int {
    if t + w / 2 <= s.len() {
        t + w / 2
    } else {
        s.len() as int
    }
}

/// The display buffer rendered from a history and its trigger point:
/// a span at least the display width is decimated by nearest-sample
/// selection, a shorter span is centered between zero-filled margins.
pub open spec fn spec_display(s: Seq<i64>, t: int, w: int) -> Seq<i64> {
    let start = clipped_start(t, w);
    let end = clipped_end(s, t, w);
    let span = end - start;
    if span >= w {
        Seq::new(w as nat, |i: int| s[start + (i * span) / w])
    } else {
        let offset = (w - span) / 2;
        Seq::new(
            w as nat,
            |i: int|
                if offset <= i < offset + span {
                    s[start + i - offset]
                } else {
                    0i64
                },
        )
    }
}

/// Drop the first `d` samples of a buffer, keeping the order of the
/// rest.
fn drop_front(v: &mut Vec<i64>, d: usize)
    requires
        d <= old(v)@.len(),
    ensures
        final(v)@ == old(v)@.skip(d as int),
{
    let mut kept: Vec<i64> = Vec::new();
    let mut i: usize = d;
    while i < v.len()
        invariant
            d <= i <= v@.len(),
            v@ == old(v)@,
            kept@ == old(v)@.subrange(d as int, i as int),
        decreases v@.len() - i,
    {
        kept.push(v[i]);
        i = i + 1;
        proof {
            assert(kept@ =~= old(v)@.subrange(d as int, i as int));
        }
    }
    proof {
        assert(kept@ =~= old(v)@.skip(d as int));
    }
    *v = kept;
}

/// Law: when the clipped span equals the display width exactly, the
/// decimation is the identity — every display slot holds its
/// corresponding source sample unchanged.
pub proof fn lemma_decimation_identity(s: Seq<i64>, t: int, w: int)
    requires
        w >= 1,
        clipped_end(s, t, w) - clipped_start(t, w) == w,
    ensures
        spec_display(s, t, w).len() == w,
        forall|i: int|
            0 <= i < w ==> #[trigger] spec_display(s, t, w)[i] == s[clipped_start(t, w) + i],
{
    assert forall|i: int| 0 <= i < w implies #[trigger] spec_display(s, t, w)[i] == s[clipped_start(
        t,
        w,
    ) + i] by {
        assert((i * w) / w == i) by (nonlinear_arith)
            requires
                w >= 1,
        ;
    }
}

/// Law: a raw history shorter than the display produces the whole
/// history centered in the display, sample for sample, with
/// zero-valued padding on both sides.
pub proof fn lemma_insufficient_history_centered(
    s: Seq<i64>,
    th: int,
    mode: TriggerMode,
    w: int,
    t: int,
)
    requires
        2 <= w,
        0 < s.len() < w,
        is_trigger_point(s, th, mode, w, t),
    ensures
        clipped_start(t, w) == 0,
        clipped_end(s, t, w) == s.len(),
        spec_display(s, t, w).len() == w,
        ({
            let offset = (w - s.len()) / 2;
            &&& forall|i: int| 0 <= i < offset ==> #[trigger] spec_display(s, t, w)[i] == 0
            &&& forall|i: int|
                offset <= i < offset + s.len() ==> #[trigger] spec_display(s, t, w)[i] == s[i
                    - offset]
            &&& forall|i: int|
                offset + s.len() <= i < w ==> #[trigger] spec_display(s, t, w)[i] == 0
        }),
{
    assert(search_end(s, w) <= search_start(w));
    assert(!has_trigger(s, th, mode, w));
    assert(t == fallback_point(s));
}

/// The relation one ingest of a non-empty snapshot establishes
/// between the scope's state before and after: the rolling history is
/// extended and capped, the display is re-rendered from it at its
/// trigger point, the generation is bumped, and the configuration is
/// untouched.
pub open spec fn spec_ingested(pre: Scope, samples: Seq<i64>, post: Scope) -> bool {
    let raw = spec_raw_after(pre.raw_buffer@, samples, pre.display_width as int);
    let th = pre.trigger_threshold as int;
    let w = pre.display_width as int;
    &&& post.raw_buffer@ == raw
    &&& exists|t: int|
        #[trigger] is_trigger_point(raw, th, pre.trigger_mode, w, t) && post.display_points@
            == spec_display(raw, t, w)
    &&& post.generation == spec_next_generation(pre.generation)
    &&& post.display_width == pre.display_width
    &&& post.trigger_mode == pre.trigger_mode
    &&& post.trigger_threshold == pre.trigger_threshold
    &&& post.source == pre.source
}

impl Scope {
    /// Ingest one snapshot: extend the rolling history, retrigger,
    /// re-render the display and bump the generation.  An empty
    /// snapshot changes nothing and reports no update.
    pub fn ingest_buffer(&mut self, buffer: &ScopeBuffer) -> (updated: bool)
        requires
            old(self).wf(),
        ensures
            final(self).wf(),
            updated == (buffer.samples@.len() > 0),
            !updated ==> *final(self) == *old(self),
            updated ==> spec_ingested(*old(self), buffer.samples@, *final(self)),
    {
        if buffer.samples.len() == 0 {
            return false;
        }
        let w: usize = self.display_width;
        let max_raw: usize = w * RAW_HISTORY_FACTOR;
        crate::engine::append_samples(&mut self.raw_buffer, &buffer.samples);
        if self.raw_buffer.len() > max_raw {
            let d: usize = self.raw_buffer.len() - max_raw;
            drop_front(&mut self.raw_buffer, d);
        }
        let ghost raw = self.raw_buffer@;
        proof {
            assert(raw == spec_raw_after(
                old(self).raw_buffer@,
                buffer.samples@,
                old(self).display_width as int,
            ));
            assert(raw.len() <= max_raw);
        }

        let t: usize = self.find_trigger_point();
        let len: usize = self.raw_buffer.len();
        let half: usize = w / 2;
        let start: usize = if t >= half {
            t - half
        } else {
            0
        };
        let end: usize = if t + half <= len {
            t + half
        } else {
            len
        };
        proof {
            assert(start == clipped_start(t as int, w as int));
            assert(end == clipped_end(raw, t as int, w as int));
            assert(start <= t < len && t <= end);
        }
        let span: usize = end - start;

        if span >= w {
            let mut i: usize = 0;
            while i < w
                invariant
                    self.wf(),
                    w == self.display_width,
                    raw == self.raw_buffer@,
                    self.trigger_mode == old(self).trigger_mode,
                    self.trigger_threshold == old(self).trigger_threshold,
                    self.generation == old(self).generation,
                    self.source == old(self).source,
                    i <= w,
                    w <= span,
                    span <= raw.len() <= (RAW_HISTORY_FACTOR as int) * w,
                    start + span <= raw.len(),
                    start == clipped_start(t as int, w as int),
                    end == clipped_end(raw, t as int, w as int),
                    span == end - start,
                    self.display_points@.len() == w,
                    forall|k: int|
                        0 <= k < i ==> #[trigger] self.display_points@[k] == spec_display(
                            raw,
                            t as int,
                            w as int,
                        )[k],
                decreases w - i,
            {
                proof {
                    assert(0 <= i * span <= (MAX_DISPLAY_WIDTH as int) * (4 * (MAX_DISPLAY_WIDTH as int))
                        && (i * span) / (w as int) < span) by (nonlinear_arith)
                        requires
                            0 <= i < w,
                            2 <= w <= MAX_DISPLAY_WIDTH,
                            w <= span <= 4 * (MAX_DISPLAY_WIDTH as int),
                    ;
                }
                let idx: usize = start + (i * span) / w;
                let v: i64 = self.raw_buffer[idx];
                self.display_points.set(i, v);
                i = i + 1;
            }
            proof {
                assert(self.display_points@ =~= spec_display(raw, t as int, w as int));
            }
        } else {
            let offset: usize = (w - span) / 2;
            let mut i: usize = 0;
            while i < w
                invariant
                    self.wf(),
                    w == self.display_width,
                    raw == self.raw_buffer@,
                    self.trigger_mode == old(self).trigger_mode,
                    self.trigger_threshold == old(self).trigger_threshold,
                    self.generation == old(self).generation,
                    self.source == old(self).source,
                    i <= w,
                    span < w,
                    raw.len() <= (RAW_HISTORY_FACTOR as int) * w,
                    start + span <= raw.len(),
                    offset == (w - span) / 2,
                    offset + span <= w,
                    start == clipped_start(t as int, w as int),
                    end == clipped_end(raw, t as int, w as int),
                    span == end - start,
                    self.display_points@.len() == w,
                    forall|k: int|
                        0 <= k < i ==> #[trigger] self.display_points@[k] == spec_display(
                            raw,
                            t as int,
                            w as int,
                        )[k],
                decreases w - i,
            {
                let v: i64 = if i >= offset && i < offset + span {
                    self.raw_buffer[(start + i) - offset]
                } else {
                    0
                };
                self.display_points.set(i, v);
                i = i + 1;
            }
            proof {
                assert(self.display_points@ =~= spec_display(raw, t as int, w as int));
            }
        }

        if self.generation == u64::MAX {
            self.generation = 0;
        } else {
            self.generation = self.generation + 1;
        }
        true
    }

    /// Push one snapshot into the scope by hand; same contract as
    /// [`Scope::ingest_buffer`].
    pub fn push_buffer(&mut self, buffer: &ScopeBuffer) -> (updated: bool)
        requires
            old(self).wf(),
        ensures
            final(self).wf(),
            updated == (buffer.samples@.len() > 0),
            !updated ==> *final(self) == *old(self),
            updated ==> spec_ingested(*old(self), buffer.samples@, *final(self)),
    {
        self.ingest_buffer(buffer)
    }

    /// Poll the attached source once and ingest whatever snapshot
    /// arrived; reports whether the display was re-rendered.  When it
    /// was, the new state is exactly an ingest of some non-empty
    /// snapshot; when it was not (no source, nothing polled, or an
    /// empty snapshot), nothing changed.
    pub fn poll_and_ingest(&mut self) -> (updated: bool)
        requires
            old(self).wf(),
        ensures
            final(self).wf(),
            old(self).source is None ==> !updated && *final(self) == *old(self),
            updated ==> exists|samples: Seq<i64>|
                samples.len() > 0 && #[trigger] spec_ingested(*old(self), samples, *final(self)),
            !updated ==> *final(self) == *old(self),
    {
        let polled: Option<ScopeBuffer> = match &self.source {
            Some(src) => src.poll(),
            None => None,
        };
        match polled {
            Some(buf) => {
                let updated: bool = self.ingest_buffer(&buf);
                proof {
                    if updated {
                        assert(spec_ingested(*old(self), buf.samples@, *self));
                    }
                }
                updated
            }
            None => false,
        }
    }
}

} // verus!
