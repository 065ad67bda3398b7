//! The sounds attached to animation clips.
use crate::enums_types::SoundType;
use vstd::prelude::*;

verus! {

/// A sound played once when a clip reaches `segment`, and whether it has played
/// during the current pass through the clip.
#[derive(Clone, Debug)]
pub struct OneShot {
    pub sound_type: SoundType,
    pub segment: u32,
    pub triggered: bool,
}

/// Whether a one-shot sound on `segment`, triggered or not, plays when its clip is on
/// segment `seg`.
pub open spec fn spec_one_shot_fires(segment: u32, triggered: bool, seg: u32) -> bool {
    seg == segment && !triggered
}

impl OneShot {
    /// Notes the segment the clip is on this tick and returns whether the sound
    /// plays now: on reaching its segment, once for each pass through it.
    pub fn observe_segment(&mut self, seg: u32) -> (fire: bool)
        ensures
            fire == spec_one_shot_fires(old(self).segment, old(self).triggered, seg),
            final(self).triggered == (seg == old(self).segment),
            final(self).segment == old(self).segment,
            final(self).sound_type == old(self).sound_type,
    {
        if seg == self.segment {
            let fire = !self.triggered;
            self.triggered = true;
            fire
        } else {
            self.triggered = false;
            false
        }
    }
}

/// A one-shot sound plays at most once while its clip stays on its segment, and plays
/// again when the clip comes back to the segment after leaving it.
pub proof fn lemma_one_shot_once_per_pass(segment: u32, triggered: bool, first: u32, second: u32)
    ensures
        !(spec_one_shot_fires(segment, triggered, first) && spec_one_shot_fires(
            segment,
            first == segment,
            second,
        )),
        first != segment && second == segment ==> spec_one_shot_fires(
            segment,
            first == segment,
            second,
        ),
{
}

/// The one-shot cues of a clip from its configuration: for each sound in order, one
/// cue on each of its segments, in order, none of them played yet.
pub open spec fn spec_one_shots(cues: Seq<(SoundType, Vec<u32>)>) -> Seq<OneShot>
    decreases cues.len(),
{
    if cues.len() == 0 {
        Seq::empty()
    } else {
        spec_one_shots(cues.drop_last()) + cues.last().1@.map_values(
            |seg: u32| OneShot { sound_type: cues.last().0, segment: seg, triggered: false },
        )
    }
}

/// Builds the one-shot cues of a clip from its configured sounds and segments.
pub fn one_shots_for(cues: &Vec<(SoundType, Vec<u32>)>) -> (r: Vec<OneShot>)
    ensures
        r@ == spec_one_shots(cues@),
{
    let mut r: Vec<OneShot> = Vec::new();
    let mut i: usize = 0;
    while i < cues.len()
        invariant
            i <= cues.len(),
            r@ == spec_one_shots(cues@.take(i as int)),
        decreases cues.len() - i,
    {
        let sound_type = cues[i].0;
        let segs = &cues[i].1;
        let ghost before = r@;
        assert(cues@.take(i as int + 1).drop_last() =~= cues@.take(i as int));
        let mut j: usize = 0;
        while j < segs.len()
            invariant
                j <= segs.len(),
                r@ == before + segs@.take(j as int).map_values(
                    |seg: u32| OneShot { sound_type, segment: seg, triggered: false },
                ),
            decreases segs.len() - j,
        {
            r.push(OneShot { sound_type, segment: segs[j], triggered: false });
            assert(segs@.take(j as int + 1).map_values(
                |seg: u32| OneShot { sound_type, segment: seg, triggered: false },
            ) =~= segs@.take(j as int).map_values(
                |seg: u32| OneShot { sound_type, segment: seg, triggered: false },
            ).push(OneShot { sound_type, segment: segs@[j as int], triggered: false }));
            j = j + 1;
        }
        assert(segs@.take(segs.len() as int) =~= segs@);
        i = i + 1;
    }
    assert(cues@.take(cues.len() as int) =~= cues@);
    r
}

/// A sound that plays while a clip plays, and whether it is playing.
#[derive(Clone, Debug)]
pub struct ContinuousSound {
    pub sound_type: SoundType,
    pub playing: bool,
}

/// How a playing event instance is stopped: at once, or letting it fade out.
#[allow(non_camel_case_types)]
#[derive(Clone, Copy, Debug, PartialEq, Eq, Structural)]
pub enum FMOD_STUDIO_STOP_MODE {
    FMOD_STUDIO_STOP_IMMEDIATE,
    FMOD_STUDIO_STOP_ALLOWFADEOUT,
}

impl FMOD_STUDIO_STOP_MODE {
    /// The integer that the sound library's C interface takes for this mode.
    pub open spec fn spec_raw(self) -> u32 {
        match self {
            FMOD_STUDIO_STOP_MODE::FMOD_STUDIO_STOP_IMMEDIATE => 1,
            FMOD_STUDIO_STOP_MODE::FMOD_STUDIO_STOP_ALLOWFADEOUT => 2,
        }
    }

    /// The C value of this mode.
    pub fn raw(&self) -> (r: u32)
        ensures
            r == self.spec_raw(),
    {
        match self {
            FMOD_STUDIO_STOP_MODE::FMOD_STUDIO_STOP_IMMEDIATE => 1,
            FMOD_STUDIO_STOP_MODE::FMOD_STUDIO_STOP_ALLOWFADEOUT => 2,
        }
    }
}

} // verus!
