//! Frame counters that let periodic work run on every n-th frame.
use vstd::prelude::*;

verus! {

/// Counts calls and fires on every `period`-th one.
pub struct Divider {
    count: u32,
    period: u32,
}

/// One tick of a divider at `count` of `period`: the new count, and whether it fired.
pub open spec fn spec_tick(count: u32, period: u32) -> (u32, bool) {
    if count + 1 >= period {
        (0u32, true)
    } else {
        ((count + 1) as u32, false)
    }
}

impl Divider {
    #[verifier::type_invariant]
    spec fn inv(self) -> bool {
        &&& self.period >= 1
        &&& self.count < self.period
    }

    /// Ticks counted since the divider last fired.
    pub closed spec fn count(self) -> u32 {
        self.count
    }

    /// The number of ticks between two firings.
    pub closed spec fn period(self) -> u32 {
        self.period
    }

    /// A divider that fires on every `period`-th tick, counting from now.
    pub fn new(period: u32) -> (d: Self)
        requires
            period >= 1,
        ensures
            d.period() == period,
            d.count() == 0,
    {
        Divider { count: 0, period }
    }

    /// Starts counting afresh.
    pub fn reset(&mut self)
        ensures
            final(self).period() == old(self).period(),
            final(self).count() == 0,
    {
        proof {
            use_type_invariant(&*self);
        }
        let period = self.period;
        *self = Divider { count: 0, period };
    }

    /// Counts one call; returns whether this call completes a period.
    pub fn tick(&mut self) -> (fired: bool)
        ensures
            final(self).period() == old(self).period(),
            (final(self).count(), fired) == spec_tick(old(self).count(), old(self).period()),
            final(self).count() < final(self).period(),
    {
        proof {
            use_type_invariant(&*self);
        }
        let period = self.period;
        let next = self.count + 1;
        if next >= period {
            *self = Divider { count: 0, period };
            true
        } else {
            *self = Divider { count: next, period };
            false
        }
    }
}

/// The state of a divider after `k` ticks, and how often it fired.
pub open spec fn spec_ticks(count: u32, period: u32, k: nat) -> (u32, nat)
    decreases k,
{
    if k == 0 {
        (count, 0nat)
    } else {
        let (c, n) = spec_ticks(count, period, (k - 1) as nat);
        let (c2, fired) = spec_tick(c, period);
        (c2, if fired { n + 1 } else { n })
    }
}

/// A divider started afresh fires on exactly every `period`-th tick: after
/// `k` ticks it has fired `k / period` times and counts `k % period`.
pub proof fn law_divider_fires_every_period(period: u32, k: nat)
    requires
        period >= 1,
    ensures
        spec_ticks(0, period, k) == ((k % (period as nat)) as u32, k / (period as nat)),
    decreases k,
{
    let p = period as nat;
    if k == 0 {
        vstd::arithmetic::div_mod::lemma_fundamental_div_mod_converse(0, p as int, 0, 0);
    } else {
        law_divider_fires_every_period(period, (k - 1) as nat);
        let (c, n) = spec_ticks(0, period, (k - 1) as nat);
        vstd::arithmetic::div_mod::lemma_fundamental_div_mod((k - 1) as int, p as int);
        assert(n * p + c == k - 1);
        if c + 1 >= p {
            assert((n + 1) * p + 0 == k) by (nonlinear_arith)
                requires
                    n * p + c == k - 1,
                    c + 1 == p,
            ;
            vstd::arithmetic::div_mod::lemma_fundamental_div_mod_converse(
                k as int,
                p as int,
                (n + 1) as int,
                0,
            );
        } else {
            vstd::arithmetic::div_mod::lemma_fundamental_div_mod_converse(
                k as int,
                p as int,
                n as int,
                c + 1,
            );
        }
    }
}


/// A state packet goes out on every this many audio buffers.
pub const PACKET_EVERY: u32 = 4;

/// The spectrum rides along on every this many packets.
pub const SPECTRUM_EVERY: u32 = 4;

/// What to do at the end of an audio buffer.
#[derive(Debug, Clone, Copy, PartialEq, Eq, Structural)]
pub enum PacketAction {
    /// Send nothing.
    Skip,
    /// Send a state packet without the spectrum.
    Send,
    /// Send a state packet that carries the latest spectrum.
    SendWithSpectrum,
}

/// Decides, buffer by buffer, when the view gets a packet and when that
/// packet carries the spectrum.
pub struct PacketSchedule {
    packets: Divider,
    spectra: Divider,
}

/// One buffer's step of the schedule, from the counts of its two dividers.
pub open spec fn spec_schedule_step(packets: u32, spectra: u32) -> (u32, u32, PacketAction) {
    let (p2, send) = spec_tick(packets, PACKET_EVERY);
    if send {
        let (s2, with_spectrum) = spec_tick(spectra, SPECTRUM_EVERY);
        (p2, s2, if with_spectrum { PacketAction::SendWithSpectrum } else { PacketAction::Send })
    } else {
        (p2, spectra, PacketAction::Skip)
    }
}

impl PacketSchedule {
    pub closed spec fn packet_count(self) -> u32 {
        self.packets.count()
    }

    pub closed spec fn spectrum_count(self) -> u32 {
        self.spectra.count()
    }

    pub closed spec fn well_formed(self) -> bool {
        &&& self.packets.period() == PACKET_EVERY
        &&& self.spectra.period() == SPECTRUM_EVERY
    }

    /// A schedule with both counts at zero.
    pub fn new() -> (s: Self)
        ensures
            s.well_formed(),
            s.packet_count() == 0,
            s.spectrum_count() == 0,
    {
        PacketSchedule { packets: Divider::new(PACKET_EVERY), spectra: Divider::new(SPECTRUM_EVERY) }
    }

    /// Both counts back to zero.
    pub fn reset(&mut self)
        requires
            old(self).well_formed(),
        ensures
            final(self).well_formed(),
            final(self).packet_count() == 0,
            final(self).spectrum_count() == 0,
    {
        self.packets.reset();
        self.spectra.reset();
    }

    /// Counts one audio buffer and says what to send for it.
    pub fn tick(&mut self) -> (action: PacketAction)
        requires
            old(self).well_formed(),
        ensures
            final(self).well_formed(),
            (final(self).packet_count(), final(self).spectrum_count(), action)
                == spec_schedule_step(old(self).packet_count(), old(self).spectrum_count()),
    {
        if self.packets.tick() {
            if self.spectra.tick() {
                PacketAction::SendWithSpectrum
            } else {
                PacketAction::Send
            }
        } else {
            PacketAction::Skip
        }
    }
}

/// The schedule after `k` buffers from (`packets`, `spectra`): the two
/// counts, how many packets went out and how many of them carried the spectrum.
pub open spec fn spec_schedule_run(packets: u32, spectra: u32, k: nat) -> (u32, u32, nat, nat)
    decreases k,
{
    if k == 0 {
        (packets, spectra, 0nat, 0nat)
    } else {
        let (p, s, sent, with_spectrum) = spec_schedule_run(packets, spectra, (k - 1) as nat);
        let (p2, s2, action) = spec_schedule_step(p, s);
        (
            p2,
            s2,
            if action != PacketAction::Skip { sent + 1 } else { sent },
            if action == PacketAction::SendWithSpectrum { with_spectrum + 1 } else { with_spectrum },
        )
    }
}

proof fn lemma_schedule_is_two_dividers(k: nat)
    ensures
        ({
            let (p, s, sent, with_spectrum) = spec_schedule_run(0, 0, k);
            &&& (p, sent) == spec_ticks(0, PACKET_EVERY, k)
            &&& (s, with_spectrum) == spec_ticks(0, SPECTRUM_EVERY, sent)
        }),
    decreases k,
{
    if k > 0 {
        lemma_schedule_is_two_dividers((k - 1) as nat);
    }
}

/// Starting from zero, after `k` audio buffers exactly `k / 4` packets have
/// been sent, and exactly `k / 16` of them carried the spectrum.
pub proof fn law_packet_rates(k: nat)
    ensures
        spec_schedule_run(0, 0, k).2 == k / (PACKET_EVERY as nat),
        spec_schedule_run(0, 0, k).3 == k / ((PACKET_EVERY * SPECTRUM_EVERY) as nat),
{
    lemma_schedule_is_two_dividers(k);
    law_divider_fires_every_period(PACKET_EVERY, k);
    let sent = spec_schedule_run(0, 0, k).2;
    law_divider_fires_every_period(SPECTRUM_EVERY, sent);
    vstd::arithmetic::div_mod::lemma_div_denominator(k as int, 4, 4);
}

} // verus!
