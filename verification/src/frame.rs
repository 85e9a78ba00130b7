//! Collection of audio samples into analysis frames, and hand-off of the
//! spectrum computed from each frame.
use vstd::prelude::*;

verus! {

/// Samples per analysis frame.
pub const FFT_SIZE: usize = 2048;

/// Bins in the spectrum of one frame: the positive frequencies.
pub const BIN_COUNT: usize = 1024;

/// Gathers samples into a frame of fixed length. Every time the frame fills up
/// the caller computes its spectrum and publishes it; the spectrum can then be
/// taken once.
pub struct FrameCollector<T> {
    samples: Vec<T>,
    write_pos: usize,
    ready: bool,
    latest: Vec<T>,
}


/// Copies a vector element by element.
fn copy_vec<T: Copy>(v: &Vec<T>) -> (r: Vec<T>)
    ensures
        r@ == v@,
{
    let mut r: Vec<T> = Vec::new();
    let mut k: usize = 0;
    while k < v.len()
        invariant
            k <= v.len(),
            r@ == v@.take(k as int),
        decreases v.len() - k,
    {
        r.push(v[k]);
        k = k + 1;
        assert(r@ =~= v@.take(k as int));
    }
    assert(v@.take(v.len() as int) =~= v@);
    r
}

/// A vector of `n` copies of `x`.
fn filled<T: Copy>(n: usize, x: T) -> (r: Vec<T>)
    ensures
        r@ == Seq::new(n as nat, |i: int| x),
{
    let mut r: Vec<T> = Vec::new();
    let mut k: usize = 0;
    while k < n
        invariant
            k <= n,
            r@ == Seq::new(k as nat, |i: int| x),
        decreases n - k,
    {
        r.push(x);
        k = k + 1;
    }
    r
}

/// Overwrites every element with `x`.
fn fill_in_place<T: Copy>(v: &mut Vec<T>, x: T)
    ensures
        final(v)@ == Seq::new(old(v)@.len(), |i: int| x),
{
    let n = v.len();
    let mut k: usize = 0;
    while k < n
        invariant
            k <= n,
            v.len() == n,
            forall|i: int| 0 <= i < k ==> v@[i] == x,
        decreases n - k,
    {
        v.set(k, x);
        k = k + 1;
    }
    assert(v@ =~= Seq::new(n as nat, |i: int| x));
}

/// Writing one sample at `pos` of a frame: the new frame, the new position, and
/// whether the frame is now complete.
pub open spec fn spec_collect<T>(frame: Seq<T>, pos: int, x: T) -> (Seq<T>, int, bool) {
    let next = pos + 1;
    if next >= frame.len() {
        (frame.update(pos, x), 0, true)
    } else {
        (frame.update(pos, x), next, false)
    }
}

/// Taking the spectrum: whether one is still waiting afterwards, and what was taken.
pub open spec fn spec_take<T>(ready: bool, latest: Seq<T>) -> (bool, Option<Seq<T>>) {
    (false, if ready { Some(latest) } else { None })
}

impl<T: Copy> FrameCollector<T> {
    /// The frame is not empty and the write position lies inside it.
    pub closed spec fn well_formed(self) -> bool {
        &&& self.samples.len() > 0
        &&& self.write_pos < self.samples.len()
    }
    /// The samples of the frame, in the order they were written since the
    /// frame was last completed, followed by those of the previous frame.
    pub closed spec fn frame(self) -> Seq<T> {
        self.samples@
    }

    /// Where the next sample goes.
    pub closed spec fn position(self) -> int {
        self.write_pos as int
    }

    /// Whether a published spectrum is waiting to be taken.
    pub closed spec fn is_ready(self) -> bool {
        self.ready
    }

    /// The last published spectrum.
    pub closed spec fn spectrum(self) -> Seq<T> {
        self.latest@
    }

    /// A collector for frames of `frame_len` samples, all `silence`, with no
    /// spectrum waiting and a spectrum of `spectrum_len` bins, all `floor`.
    pub fn new(frame_len: usize, silence: T, spectrum_len: usize, floor: T) -> (c: Self)
        requires
            frame_len > 0,
        ensures
            c.well_formed(),
            c.frame() == Seq::new(frame_len as nat, |i: int| silence),
            c.position() == 0,
            !c.is_ready(),
            c.spectrum() == Seq::new(spectrum_len as nat, |i: int| floor),
    {
        FrameCollector {
            samples: filled(frame_len, silence),
            write_pos: 0,
            ready: false,
            latest: filled(spectrum_len, floor),
        }
    }

    /// Starts over: the frame holds only `silence`, nothing is waiting, and every
    /// bin of the spectrum is `floor`.
    pub fn reset(&mut self, silence: T, floor: T)
        requires
            old(self).well_formed(),
        ensures
            final(self).well_formed(),
            final(self).frame() == Seq::new(old(self).frame().len(), |i: int| silence),
            final(self).position() == 0,
            !final(self).is_ready(),
            final(self).spectrum() == Seq::new(old(self).spectrum().len(), |i: int| floor),
    {
        fill_in_place(&mut self.samples, silence);
        fill_in_place(&mut self.latest, floor);
        self.write_pos = 0;
        self.ready = false;
    }

    /// Writes one sample; returns whether it completed the frame, in which case
    /// the next sample starts a new frame.
    pub fn push(&mut self, x: T) -> (complete: bool)
        requires
            old(self).well_formed(),
        ensures
            final(self).well_formed(),
            (final(self).frame(), final(self).position(), complete) == spec_collect(
                old(self).frame(),
                old(self).position(),
                x,
            ),
            final(self).is_ready() == old(self).is_ready(),
            final(self).spectrum() == old(self).spectrum(),
    {
        let pos = self.write_pos;
        let n = self.samples.len();
        self.samples.set(pos, x);
        let complete = pos + 1 >= n;
        if complete {
            self.write_pos = 0;
        } else {
            self.write_pos = pos + 1;
        }
        complete
    }

    /// The samples of the frame (see `frame`).
    pub fn samples(&self) -> (s: &[T])
        ensures
            s@ == self.frame(),
    {
        self.samples.as_slice()
    }

    /// Hands over the spectrum of the frame just completed.
    pub fn publish(&mut self, spectrum: Vec<T>)
        requires
            old(self).well_formed(),
        ensures
            final(self).well_formed(),
            final(self).frame() == old(self).frame(),
            final(self).position() == old(self).position(),
            final(self).is_ready(),
            final(self).spectrum() == spectrum@,
    {
        self.latest = spectrum;
        self.ready = true;
    }

    /// The spectrum published since the last call, if there is one; a
    /// spectrum is handed out only once.
    pub fn take(&mut self) -> (r: Option<Vec<T>>)
        requires
            old(self).well_formed(),
        ensures
            final(self).well_formed(),
            final(self).frame() == old(self).frame(),
            final(self).position() == old(self).position(),
            final(self).spectrum() == old(self).spectrum(),
            final(self).is_ready() == spec_take(old(self).is_ready(), old(self).spectrum()).0,
            (match r {
                Some(v) => Some(v@),
                None => None,
            }) == spec_take(old(self).is_ready(), old(self).spectrum()).1,
    {
        if self.ready {
            self.ready = false;
            Some(copy_vec(&self.latest))
        } else {
            None
        }
    }

    /// Bins in the published spectrum.
    pub fn bin_count(&self) -> (n: usize)
        ensures
            n == self.spectrum().len(),
    {
        self.latest.len()
    }
}


/// Writing the samples `xs` in turn: the frame, the position, and how many
/// frames were completed.
pub open spec fn spec_collect_all<T>(frame: Seq<T>, pos: int, xs: Seq<T>) -> (Seq<T>, int, nat)
    decreases xs.len(),
{
    if xs.len() == 0 {
        (frame, pos, 0nat)
    } else {
        let (f, p, n) = spec_collect_all(frame, pos, xs.drop_last());
        let (f2, p2, complete) = spec_collect(f, p, xs.last());
        (f2, p2, if complete { n + 1 } else { n })
    }
}

/// Starting a frame, the samples fill it in order; the frame is complete
/// exactly when its last slot is written, and it then holds exactly the
/// samples written, with the next sample starting a new frame.
pub proof fn law_frame_fills_in_order<T>(frame: Seq<T>, xs: Seq<T>)
    requires
        0 < frame.len(),
        xs.len() <= frame.len(),
    ensures
        spec_collect_all(frame, 0, xs).0 == xs + frame.skip(xs.len() as int),
        xs.len() < frame.len() ==> spec_collect_all(frame, 0, xs).1 == xs.len() && spec_collect_all(frame, 0, xs).2 == 0,
        xs.len() == frame.len() ==> spec_collect_all(frame, 0, xs).0 == xs && spec_collect_all(frame, 0, xs).1 == 0
            && spec_collect_all(frame, 0, xs).2 == 1,
    decreases xs.len(),
{
    if xs.len() == 0 {
        assert(xs + frame.skip(0) =~= frame);
    } else {
        law_frame_fills_in_order(frame, xs.drop_last());
        assert(spec_collect_all(frame, 0, xs).0 =~= xs + frame.skip(xs.len() as int));
    }
    if xs.len() == frame.len() {
        assert(xs + frame.skip(xs.len() as int) =~= xs);
    }
}

/// A published spectrum is taken exactly once: taking it hands it over, and
/// taking again before the next frame gives nothing.
pub proof fn law_spectrum_taken_once<T>(ready: bool, latest: Seq<T>)
    ensures
        spec_take(true, latest).1 == Some(latest),
        spec_take(spec_take(ready, latest).0, latest).1 == None::<Seq<T>>,
{
}

} // verus!
