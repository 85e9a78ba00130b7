//! Cooldown gating of the kick, snare and hihat triggers.
use vstd::prelude::*;

verus! {

/// Index of the kick trigger.
pub const KICK: usize = 0;

/// Index of the snare trigger.
pub const SNARE: usize = 1;

/// Index of the hihat trigger.
pub const HIHAT: usize = 2;

/// One trigger for one frame: its cooldown counts down by one (not below
/// zero); it fires when the cooldown has run out and the frame spikes, and
/// firing starts a new cooldown of `frames` frames.
pub open spec fn spec_trigger(cooldown: u32, spike: bool, frames: u32) -> (u32, bool) {
    let left: u32 = if cooldown > 0 { (cooldown - 1) as u32 } else { 0 };
    if left == 0 && spike {
        (frames, true)
    } else {
        (left, false)
    }
}

/// The kick, snare and hihat triggers with their cooldowns. The band energies
/// show which frames spike; the cooldowns decide which spikes fire.
pub struct OnsetTriggers {
    cooldown: [u32; 3],
    triggers: [bool; 3],
    frames_per_cooldown: u32,
}

impl OnsetTriggers {
    #[verifier::type_invariant]
    spec fn inv(self) -> bool {
        self.frames_per_cooldown >= 1
    }

    /// Frames left before each trigger may fire again.
    pub closed spec fn cooldowns(self) -> Seq<u32> {
        self.cooldown@
    }

    /// Whether each trigger fired on the last frame.
    pub closed spec fn fired(self) -> Seq<bool> {
        self.triggers@
    }

    /// The length of a cooldown, in frames.
    pub closed spec fn cooldown_frames(self) -> u32 {
        self.frames_per_cooldown
    }

    /// Idle triggers whose cooldowns last `frames` frames, and at least one.
    pub fn new(frames: u32) -> (g: Self)
        ensures
            g.cooldowns() == seq![0u32, 0u32, 0u32],
            g.fired() == seq![false, false, false],
            g.cooldown_frames() == if frames >= 1 { frames } else { 1 },
    {
        let f = if frames >= 1 {
            frames
        } else {
            1
        };
        OnsetTriggers { cooldown: [0, 0, 0], triggers: [false, false, false], frames_per_cooldown: f }
    }

    /// Sets the length of future cooldowns to `frames` frames, and at least one;
    /// cooldowns already running are left as they are.
    pub fn set_cooldown_frames(&mut self, frames: u32)
        ensures
            final(self).cooldowns() == old(self).cooldowns(),
            final(self).fired() == old(self).fired(),
            final(self).cooldown_frames() == if frames >= 1 { frames } else { 1 },
    {
        let f = if frames >= 1 {
            frames
        } else {
            1
        };
        let cooldown = self.cooldown;
        let triggers = self.triggers;
        *self = OnsetTriggers { cooldown, triggers, frames_per_cooldown: f };
    }

    /// Clears every cooldown and trigger.
    pub fn reset(&mut self)
        ensures
            final(self).cooldowns() == seq![0u32, 0u32, 0u32],
            final(self).fired() == seq![false, false, false],
            final(self).cooldown_frames() == old(self).cooldown_frames(),
    {
        proof {
            use_type_invariant(&*self);
        }
        let f = self.frames_per_cooldown;
        *self = OnsetTriggers { cooldown: [0, 0, 0], triggers: [false, false, false], frames_per_cooldown: f };
    }

    /// Runs one frame; `spikes` says, per trigger, whether the frame spikes.
    pub fn step(&mut self, spikes: [bool; 3])
        ensures
            final(self).cooldown_frames() == old(self).cooldown_frames(),
            final(self).cooldowns().len() == 3,
            final(self).fired().len() == 3,
            forall|i: int|
                0 <= i < 3 ==> #[trigger] final(self).cooldowns()[i] == spec_trigger(
                    old(self).cooldowns()[i],
                    spikes@[i],
                    old(self).cooldown_frames(),
                ).0,
            forall|i: int|
                0 <= i < 3 ==> #[trigger] final(self).fired()[i] == spec_trigger(
                    old(self).cooldowns()[i],
                    spikes@[i],
                    old(self).cooldown_frames(),
                ).1,
    {
        proof {
            use_type_invariant(&*self);
        }
        let f = self.frames_per_cooldown;
        let (c0, t0) = Self::trigger_one(self.cooldown[0], spikes[0], f);
        let (c1, t1) = Self::trigger_one(self.cooldown[1], spikes[1], f);
        let (c2, t2) = Self::trigger_one(self.cooldown[2], spikes[2], f);
        *self = OnsetTriggers { cooldown: [c0, c1, c2], triggers: [t0, t1, t2], frames_per_cooldown: f };
        assert(self.cooldowns() == seq![c0, c1, c2]);
        assert(self.fired() == seq![t0, t1, t2]);
    }

    fn trigger_one(cooldown: u32, spike: bool, frames: u32) -> (r: (u32, bool))
        ensures
            r == spec_trigger(cooldown, spike, frames),
    {
        let left = cooldown.saturating_sub(1);
        if left == 0 && spike {
            (frames, true)
        } else {
            (left, false)
        }
    }

    /// Whether the kick fired on the last frame.
    pub fn kick(&self) -> (b: bool)
        ensures
            b == self.fired()[KICK as int],
    {
        self.triggers[KICK]
    }

    /// Whether the snare fired on the last frame.
    pub fn snare(&self) -> (b: bool)
        ensures
            b == self.fired()[SNARE as int],
    {
        self.triggers[SNARE]
    }

    /// Whether the hihat fired on the last frame.
    pub fn hihat(&self) -> (b: bool)
        ensures
            b == self.fired()[HIHAT as int],
    {
        self.triggers[HIHAT]
    }
}


/// One trigger over a run of frames: its final cooldown, and how often it fired.
pub open spec fn spec_trigger_run(cooldown: u32, frames: u32, spikes: Seq<bool>) -> (u32, nat)
    decreases spikes.len(),
{
    if spikes.len() == 0 {
        (cooldown, 0nat)
    } else {
        let (c, n) = spec_trigger_run(cooldown, frames, spikes.drop_last());
        let (c2, fired) = spec_trigger(c, spikes.last(), frames);
        (c2, if fired { n + 1 } else { n })
    }
}

/// A trigger that has just fired stays silent for the next `frames - 1`
/// frames whatever the band energy does, and fires again on the first spike
/// after that.
pub proof fn law_cooldown_silences(frames: u32, spikes: Seq<bool>)
    requires
        frames >= 1,
        spikes.len() < frames,
    ensures
        spec_trigger_run(frames, frames, spikes) == ((frames - spikes.len()) as u32, 0nat),
        spikes.len() == frames - 1 ==> spec_trigger(
            spec_trigger_run(frames, frames, spikes).0,
            true,
            frames,
        ).1,
    decreases spikes.len(),
{
    if spikes.len() > 0 {
        law_cooldown_silences(frames, spikes.drop_last());
    }
}

/// An idle trigger fires on the first spike, and a frame without a spike
/// never fires.
pub proof fn law_idle_trigger_fires(frames: u32, cooldown: u32)
    ensures
        spec_trigger(0, true, frames) == (frames, true),
        !spec_trigger(cooldown, false, frames).1,
        cooldown <= 1 ==> spec_trigger(cooldown, true, frames).1,
{
}


/// Firing always starts a full cooldown, from whatever state the trigger was
/// in; after any firing the trigger stays silent for the next `frames - 1`
/// frames whatever the spikes.
pub proof fn law_firing_starts_full_cooldown(cooldown: u32, spike: bool, frames: u32, later: Seq<bool>)
    requires
        frames >= 1,
        later.len() < frames,
    ensures
        spec_trigger(cooldown, spike, frames).1 ==> spec_trigger(cooldown, spike, frames).0 == frames,
        spec_trigger(cooldown, spike, frames).1 ==> spec_trigger_run(
            spec_trigger(cooldown, spike, frames).0,
            frames,
            later,
        ).1 == 0,
{
    if spec_trigger(cooldown, spike, frames).1 {
        law_cooldown_silences(frames, later);
    }
}

/// A frame without a spike only counts the cooldown down by one (not below
/// zero) and never fires; a frame with a spike fires exactly when the
/// cooldown is at most one, that is when it runs out on this frame.
pub proof fn law_cooldown_counts_down(cooldown: u32, spike: bool, frames: u32)
    ensures
        spec_trigger(cooldown, false, frames) == (
            if cooldown > 0 { (cooldown - 1) as u32 } else { 0u32 },
            false,
        ),
        spike ==> (spec_trigger(cooldown, spike, frames).1 <==> cooldown <= 1),
        !spec_trigger(cooldown, spike, frames).1 ==> spec_trigger(cooldown, spike, frames).0 == (
            if cooldown > 0 { (cooldown - 1) as u32 } else { 0u32 }),
{
}

/// Frames without a spike wind a cooldown down one frame at a time: after
/// `quiet.len()` of them it is `cooldown - quiet.len()`, or zero.
pub proof fn law_quiet_frames_wind_down(cooldown: u32, frames: u32, quiet: Seq<bool>)
    requires
        forall|i: int| 0 <= i < quiet.len() ==> !quiet[i],
    ensures
        spec_trigger_run(cooldown, frames, quiet) == (
            if cooldown >= quiet.len() { (cooldown - quiet.len()) as u32 } else { 0u32 },
            0nat,
        ),
    decreases quiet.len(),
{
    if quiet.len() > 0 {
        law_quiet_frames_wind_down(cooldown, frames, quiet.drop_last());
    }
}

/// After firing, a trigger fires again on the first spike that comes at
/// least `frames` frames later, however the frames in between went.
pub proof fn law_fires_again_after_cooldown(frames: u32, between: Seq<bool>)
    requires
        frames >= 1,
        between.len() == frames - 1,
    ensures
        spec_trigger(spec_trigger_run(frames, frames, between).0, true, frames) == (frames, true),
{
    law_cooldown_silences(frames, between);
}

} // verus!
