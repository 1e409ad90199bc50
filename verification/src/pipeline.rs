//! The timeline accumulator: the single-pass state machine that walks the
//! script lines in order, advances the one cumulative clock, and emits one
//! timed subtitle cue plus one audio-mix request per successfully
//! synthesized line. A line whose synthesis failed is skipped: its index is
//! consumed but the clock does not advance and no cue is appended.

use vstd::prelude::*;

use crate::models::ass_subtitle::{style_of_index, StyleType, Subtitle};

verus! {

/// One request to mix a synthesized clip into the running video: the clip
/// is inserted at `offset_millis` on the cumulative timeline, and `weight`
/// (the count of successfully processed lines so far) drives the decaying
/// relative gain of later clips.
#[derive(Debug, Clone, Copy, PartialEq, Eq, Structural)]
pub struct MixRequest {
    pub offset_millis: u64,
    pub weight: i32,
}

/// Well-formedness of an accumulated cue sequence against the clock and the
/// next line index: every cue is a non-empty-forward interval, consecutive
/// cues do not overlap, no cue reaches past the clock, and cue ids are
/// strictly increasing, non-negative, and below the next index.
pub open spec fn cues_wf(cues: Seq<Subtitle>, clock: int, next: int) -> bool {
    &&& forall|i: int|
        0 <= i < cues.len() ==> (#[trigger] cues[i]).start_time <= cues[i].end_time
    &&& forall|i: int|
        0 <= i < cues.len() - 1 ==> (#[trigger] cues[i]).end_time <= cues[i + 1].start_time
    &&& forall|i: int| 0 <= i < cues.len() ==> (#[trigger] cues[i]).end_time <= clock
    &&& forall|i: int| 0 <= i < cues.len() ==> 0 <= (#[trigger] cues[i]).id < next
    &&& forall|i: int|
        0 <= i < cues.len() - 1 ==> (#[trigger] cues[i]).id < cues[i + 1].id
}

/// The state of one pipeline run: the cumulative clock in milliseconds
/// (starts at zero, never reset, advanced once per successful line by the
/// clip duration plus the configured pause), the cues appended so far, the
/// zero-based index of the next script line, and the fixed inter-line pause.
pub struct TimelineAccumulator {
    pub clock_millis: u64,
    pub cues: Vec<Subtitle>,
    pub next_index: usize,
    pub pause_millis: u64,
}

impl TimelineAccumulator {
    /// The run invariant: the cue sequence is well formed against the clock
    /// and the next line index.
    pub open spec fn wf(self) -> bool {
        cues_wf(self.cues@, self.clock_millis as int, self.next_index as int)
    }

    /// A fresh run: clock at zero, no cues, the first line up next.
    pub fn new(pause_millis: u64) -> (r: Self)
        ensures
            r.clock_millis == 0,
            r.cues@.len() == 0,
            r.next_index == 0,
            r.pause_millis == pause_millis,
            r.wf(),
    {
        TimelineAccumulator {
            clock_millis: 0,
            cues: Vec::new(),
            next_index: 0,
            pause_millis,
        }
    }

    /// Consumes the next script line given the outcome of its speech
    /// synthesis. On success (`Some` clip duration, in milliseconds) it
    /// appends the cue `[clock, clock + clip)` with the line's text and the
    /// style picked for its index, returns the mix request for the clip at
    /// the old clock with weight `index + 1`, and advances the clock by the
    /// clip duration plus the pause. On failure (`None`) it only consumes
    /// the index: no cue, no mix request, and the clock stays put.
    pub fn step(&mut self, text: &str, clip_millis: Option<u64>) -> (r: Option<MixRequest>)
        requires
            old(self).wf(),
            old(self).next_index + 1 <= i32::MAX,
            clip_millis is Some ==> old(self).clock_millis + clip_millis->Some_0 + old(
                self,
            ).pause_millis <= u64::MAX,
        ensures
            final(self).wf(),
            final(self).pause_millis == old(self).pause_millis,
            final(self).next_index == old(self).next_index + 1,
            clip_millis is None ==> {
                &&& final(self).cues@ == old(self).cues@
                &&& final(self).clock_millis == old(self).clock_millis
                &&& r is None
            },
            clip_millis is Some ==> {
                &&& final(self).clock_millis == old(self).clock_millis + clip_millis->Some_0 + old(
                    self,
                ).pause_millis
                &&& final(self).cues@.len() == old(self).cues@.len() + 1
                &&& final(self).cues@.drop_last() == old(self).cues@
                &&& final(self).cues@.last().id == old(self).next_index as i32
                &&& final(self).cues@.last().start_time == old(self).clock_millis
                &&& final(self).cues@.last().end_time == old(self).clock_millis
                    + clip_millis->Some_0
                &&& final(self).cues@.last().text@ == text@
                &&& final(self).cues@.last().style_name == Some(
                    style_of_index(old(self).next_index as nat),
                )
                &&& r == Some(
                    MixRequest {
                        offset_millis: old(self).clock_millis,
                        weight: (old(self).next_index + 1) as i32,
                    },
                )
            },
    {
        match clip_millis {
            Some(clip) => {
                let start = self.clock_millis;
                let end = start + clip;
                let style = StyleType::from(self.next_index as u32);
                self.cues.push(
                    Subtitle {
                        id: self.next_index as i32,
                        start_time: start,
                        end_time: end,
                        text: text.to_owned(),
                        style_name: Some(style),
                    },
                );
                let req = MixRequest {
                    offset_millis: start,
                    weight: (self.next_index + 1) as i32,
                };
                self.clock_millis = end + self.pause_millis;
                self.next_index = self.next_index + 1;
                proof {
                    assert(self.cues@.drop_last() =~= old(self).cues@);
                    assert forall|i: int| 0 <= i < self.cues@.len() - 1 implies (
                    #[trigger] self.cues@[i]).end_time <= self.cues@[i + 1].start_time && self.cues@[
                        i
                    ].id < self.cues@[i + 1].id by {
                        assert(self.cues@[i] == old(self).cues@[i]);
                        if i + 1 < self.cues@.len() - 1 {
                            assert(self.cues@[i + 1] == old(self).cues@[i + 1]);
                        }
                    }
                    assert(self.wf());
                }
                Some(req)
            },
            None => {
                self.next_index = self.next_index + 1;
                None
            },
        }
    }
}

} // verus!
