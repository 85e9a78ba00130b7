//! Musical sections and the transition rules between them.
use vstd::prelude::*;

verus! {

/// A musical section of a track.
#[derive(Debug, Clone, Copy, PartialEq, Eq, Structural)]
pub enum Section {
    Intro,
    Build,
    Drop,
    Breakdown,
    Sustain,
    Outro,
}

/// The display name of a section.
pub open spec fn section_name(s: Section) -> Seq<char> {
    match s {
        Section::Intro => "Intro"@,
        Section::Build => "Build"@,
        Section::Drop => "Drop"@,
        Section::Breakdown => "Breakdown"@,
        Section::Sustain => "Sustain"@,
        Section::Outro => "Outro"@,
    }
}

impl Section {
    /// The display name of the section, as shown in the packet sent to the view.
    pub fn to_string(&self) -> (s: String)
        ensures
            s@ == section_name(*self),
    {
        match self {
            Section::Intro => String::from_str("Intro"),
            Section::Build => String::from_str("Build"),
            Section::Drop => String::from_str("Drop"),
            Section::Breakdown => String::from_str("Breakdown"),
            Section::Sustain => String::from_str("Sustain"),
            Section::Outro => String::from_str("Outro"),
        }
    }
}


/// A section may only change after it has lasted this many analysis frames.
pub const MIN_FRAMES_BEFORE_TRANSITION: u32 = 60;

/// The signal conditions that drive section changes, measured on one analysis
/// frame. Each flag is the outcome of one comparison of the frame's energy,
/// flux and energy trend against the thresholds of the section rules.
#[derive(Debug, Clone, Copy, PartialEq, Eq, Structural)]
pub struct TransitionCues {
    /// Very low energy and very low flux.
    pub quiet: bool,
    /// Energy well above its running average and loud in absolute terms.
    pub surge: bool,
    /// Energy well below its running average and soft in absolute terms.
    pub slump: bool,
    /// Energy trending up, flux accelerating, energy not yet high.
    pub rising: bool,
    /// High energy with a flat trend.
    pub plateau: bool,
    /// Energy trending down and already low.
    pub fading: bool,
}

/// The section that the rules pick for a frame, given the section the track is
/// in. Rules are tried in order; the first that applies wins; when none applies
/// the track stays where it is. A breakdown never follows an intro directly.
pub open spec fn spec_next_section(current: Section, cues: TransitionCues) -> Section {
    if cues.quiet {
        Section::Intro
    } else if cues.surge {
        Section::Drop
    } else if cues.slump && current != Section::Intro {
        Section::Breakdown
    } else if cues.rising {
        Section::Build
    } else if cues.plateau {
        Section::Sustain
    } else if cues.fading {
        Section::Outro
    } else {
        current
    }
}

/// Applies the transition rules to one frame (see `spec_next_section`).
pub fn next_section(current: Section, cues: TransitionCues) -> (next: Section)
    ensures
        next == spec_next_section(current, cues),
{
    if cues.quiet {
        return Section::Intro;
    }
    if cues.surge {
        return Section::Drop;
    }
    if cues.slump && current != Section::Intro {
        return Section::Breakdown;
    }
    if cues.rising {
        return Section::Build;
    }
    if cues.plateau {
        return Section::Sustain;
    }
    if cues.fading {
        return Section::Outro;
    }
    current
}

/// The discrete state of the section classifier: the current section and how
/// many frames it has lasted.
pub struct SectionState {
    current: Section,
    frames_in_section: u32,
}

/// What one frame does to the state (see `SectionState::advance`).
pub open spec fn spec_advance(current: Section, frames: u32, cues: TransitionCues) -> (Section, u32) {
    let counted = frames + 1;
    if counted < MIN_FRAMES_BEFORE_TRANSITION {
        (current, counted as u32)
    } else {
        let next = spec_next_section(current, cues);
        if next != current {
            (next, 0u32)
        } else {
            (current, counted as u32)
        }
    }
}

impl SectionState {
    pub closed spec fn section(&self) -> Section {
        self.current
    }

    pub closed spec fn frames(&self) -> u32 {
        self.frames_in_section
    }

    /// A fresh state: the intro, with no frames counted.
    pub fn new() -> (s: Self)
        ensures
            s.section() == Section::Intro,
            s.frames() == 0,
    {
        SectionState { current: Section::Intro, frames_in_section: 0 }
    }

    /// Back to the intro, with no frames counted.
    pub fn reset(&mut self)
        ensures
            final(self).section() == Section::Intro,
            final(self).frames() == 0,
    {
        self.current = Section::Intro;
        self.frames_in_section = 0;
    }

    /// Counts one analysis frame and, once the section has lasted long enough,
    /// moves to the section that the rules pick; a change restarts the count.
    pub fn advance(&mut self, cues: TransitionCues)
        requires
            old(self).frames() < u32::MAX,
        ensures
            (final(self).section(), final(self).frames()) == spec_advance(
                old(self).section(),
                old(self).frames(),
                cues,
            ),
    {
        self.frames_in_section = self.frames_in_section + 1;
        if self.frames_in_section < MIN_FRAMES_BEFORE_TRANSITION {
            return;
        }
        let next = next_section(self.current, cues);
        if next != self.current {
            self.current = next;
            self.frames_in_section = 0;
        }
    }

    /// The current section.
    pub fn current(&self) -> (s: Section)
        ensures
            s == self.section(),
    {
        self.current
    }

    /// How many frames the current section has lasted.
    pub fn frames_in_section(&self) -> (n: u32)
        ensures
            n == self.frames(),
    {
        self.frames_in_section
    }
}


/// The state after a run of frames, one set of cues per frame.
pub open spec fn spec_run(current: Section, frames: u32, cues: Seq<TransitionCues>) -> (Section, u32)
    decreases cues.len(),
{
    if cues.len() == 0 {
        (current, frames)
    } else {
        let (c, f) = spec_run(current, frames, cues.drop_last());
        spec_advance(c, f, cues.last())
    }
}

/// A section lasts at least `MIN_FRAMES_BEFORE_TRANSITION` frames: whatever the
/// cues, a section that has lasted `frames` frames is still current after any
/// run of frames that keeps the count below the minimum, and the count has
/// grown by the length of the run.
pub proof fn law_minimum_dwell(current: Section, frames: u32, cues: Seq<TransitionCues>)
    requires
        frames + cues.len() < MIN_FRAMES_BEFORE_TRANSITION,
    ensures
        spec_run(current, frames, cues) == (current, (frames + cues.len()) as u32),
    decreases cues.len(),
{
    if cues.len() > 0 {
        law_minimum_dwell(current, frames, cues.drop_last());
    }
}

/// A breakdown never comes straight after the intro.
pub proof fn law_no_breakdown_after_intro(frames: u32, cues: TransitionCues)
    ensures
        spec_next_section(Section::Intro, cues) != Section::Breakdown,
        spec_advance(Section::Intro, frames, cues).0 != Section::Breakdown,
{
}

/// Without any cue the section never changes.
pub proof fn law_no_cue_no_change(current: Section, frames: u32, cues: TransitionCues)
    requires
        !cues.quiet,
        !cues.surge,
        !cues.slump,
        !cues.rising,
        !cues.plateau,
        !cues.fading,
    ensures
        spec_next_section(current, cues) == current,
        spec_advance(current, frames, cues).0 == current,
{
}

/// Every change of section starts a fresh count, and a change happens only
/// once the section has lasted the minimum number of frames.
pub proof fn law_change_restarts_count(current: Section, frames: u32, cues: TransitionCues)
    requires
        spec_advance(current, frames, cues).0 != current,
    ensures
        spec_advance(current, frames, cues).1 == 0,
        frames + 1 >= MIN_FRAMES_BEFORE_TRANSITION,
        spec_advance(current, frames, cues).0 == spec_next_section(current, cues),
{
}

/// Once the minimum has passed, silence sends the track back to the intro.
pub proof fn law_quiet_returns_to_intro(current: Section, frames: u32, cues: TransitionCues)
    requires
        frames + 1 >= MIN_FRAMES_BEFORE_TRANSITION,
        cues.quiet,
    ensures
        spec_advance(current, frames, cues).0 == Section::Intro,
{
}


/// Each rule applies whatever section the track is in (only the breakdown
/// rule waits for the track to have left the intro): the first rule whose cue
/// is present picks the section.
pub proof fn law_rules_apply_in_any_section(current: Section, cues: TransitionCues)
    ensures
        cues.quiet ==> spec_next_section(current, cues) == Section::Intro,
        !cues.quiet && cues.surge ==> spec_next_section(current, cues) == Section::Drop,
        !cues.quiet && !cues.surge && cues.slump && current != Section::Intro ==> spec_next_section(
            current,
            cues,
        ) == Section::Breakdown,
        !cues.quiet && !cues.surge && !(cues.slump && current != Section::Intro) && cues.rising
            ==> spec_next_section(current, cues) == Section::Build,
        !cues.quiet && !cues.surge && !(cues.slump && current != Section::Intro) && !cues.rising
            && cues.plateau ==> spec_next_section(current, cues) == Section::Sustain,
        !cues.quiet && !cues.surge && !(cues.slump && current != Section::Intro) && !cues.rising
            && !cues.plateau && cues.fading ==> spec_next_section(current, cues) == Section::Outro,
{
}

/// Apart from the breakdown rule, the section picked does not depend on the
/// section the track is in, as soon as any cue is present.
pub proof fn law_pick_ignores_current(a: Section, b: Section, cues: TransitionCues)
    requires
        cues.quiet || cues.surge || cues.rising || cues.plateau || cues.fading,
        !cues.slump,
    ensures
        spec_next_section(a, cues) == spec_next_section(b, cues),
{
}

/// While the section stays the same, its count keeps growing by one per
/// frame; it restarts only when the section changes. In particular, when the
/// rules pick the current section again the count just grows.
pub proof fn law_kept_section_keeps_counting(current: Section, frames: u32, cues: TransitionCues)
    requires
        frames < u32::MAX,
    ensures
        spec_advance(current, frames, cues).0 == current ==> spec_advance(current, frames, cues).1
            == frames + 1,
        spec_next_section(current, cues) == current ==> spec_advance(current, frames, cues) == (
            current,
            (frames + 1) as u32,
        ),
        frames + 1 >= MIN_FRAMES_BEFORE_TRANSITION ==> spec_advance(current, frames, cues).0
            == spec_next_section(current, cues),
{
}

} // verus!
