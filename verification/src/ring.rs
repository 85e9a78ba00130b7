//! A fixed-length history of the most recent values, oldest first.
use vstd::prelude::*;

verus! {

/// A circular buffer that always holds the last `len()` values written to it.
/// Its view lists them from the oldest to the newest.
pub struct HistoryRing<T> {
    items: Vec<T>,
    pos: usize,
}

impl<T> HistoryRing<T> {
    #[verifier::type_invariant]
    spec fn inv(self) -> bool {
        &&& self.items.len() > 0
        &&& self.pos < self.items.len()
    }
}

impl<T: Copy> HistoryRing<T> {
    /// The values held, oldest first.
    pub closed spec fn values(self) -> Seq<T> {
        let n = self.items.len() as int;
        Seq::new(
            n as nat,
            |i: int|
                if self.pos + i < n {
                    self.items@[self.pos + i]
                } else {
                    self.items@[self.pos + i - n]
                },
        )
    }

    /// A history of `len` copies of `fill`.
    pub fn new(len: usize, fill: T) -> (r: Self)
        requires
            len > 0,
        ensures
            r.values() == Seq::new(len as nat, |i: int| fill),
    {
        let mut items: Vec<T> = Vec::new();
        let mut k: usize = 0;
        while k < len
            invariant
                k <= len,
                items@ == Seq::new(k as nat, |i: int| fill),
            decreases len - k,
        {
            items.push(fill);
            k = k + 1;
        }
        let r = HistoryRing { items, pos: 0 };
        assert(r.values() =~= Seq::new(len as nat, |i: int| fill));
        r
    }

    /// A history of the single value `x`.
    fn single(x: T) -> (r: Self)
        ensures
            r.values() == seq![x],
    {
        let mut items: Vec<T> = Vec::new();
        items.push(x);
        let r = HistoryRing { items, pos: 0 };
        assert(r.values() =~= seq![x]);
        r
    }

    /// How many values the history holds.
    pub fn len(&self) -> (n: usize)
        ensures
            n as nat == self.values().len(),
            n > 0,
    {
        proof {
            use_type_invariant(self);
        }
        self.items.len()
    }

    /// Writes `x` as the newest value; the oldest value leaves and is returned.
    pub fn push(&mut self, x: T) -> (evicted: T)
        ensures
            evicted == old(self).values()[0],
            final(self).values() == old(self).values().drop_first().push(x),
    {
        proof {
            use_type_invariant(&*self);
        }
        let ghost before = self.values();
        let n = self.items.len();
        let p = self.pos;
        let evicted = self.items[p];
        let mut taken = Self::single(x);
        std::mem::swap(self, &mut taken);
        let HistoryRing { mut items, pos: _ } = taken;
        items.set(p, x);
        let next = if p + 1 == n {
            0
        } else {
            p + 1
        };
        *self = HistoryRing { items, pos: next };
        assert(self.values() =~= before.drop_first().push(x));
        evicted
    }

    /// The value at position `i`, counting from the oldest.
    pub fn at(&self, i: usize) -> (v: T)
        requires
            i < self.values().len(),
        ensures
            v == self.values()[i as int],
    {
        proof {
            use_type_invariant(self);
        }
        let n = self.items.len();
        if i < n - self.pos {
            self.items[self.pos + i]
        } else {
            self.items[i - (n - self.pos)]
        }
    }

    /// Overwrites every value with `fill`.
    pub fn fill(&mut self, fill: T)
        ensures
            final(self).values() == Seq::new(old(self).values().len(), |i: int| fill),
    {
        proof {
            use_type_invariant(&*self);
        }
        let n = self.items.len();
        let mut taken = Self::single(fill);
        std::mem::swap(self, &mut taken);
        let HistoryRing { mut items, pos: _ } = taken;
        let mut k: usize = 0;
        while k < n
            invariant
                k <= n,
                items.len() == n,
                forall|i: int| 0 <= i < k ==> items@[i] == fill,
            decreases n - k,
        {
            items.set(k, fill);
            k = k + 1;
        }
        *self = HistoryRing { items, pos: 0 };
        assert(self.values() =~= Seq::new(n as nat, |i: int| fill));
    }
}


/// The view after writing each value of `xs` in turn, starting from `h`.
pub open spec fn spec_push_all<T>(h: Seq<T>, xs: Seq<T>) -> Seq<T>
    decreases xs.len(),
{
    if xs.len() == 0 {
        h
    } else {
        spec_push_all(h, xs.drop_last()).drop_first().push(xs.last())
    }
}

/// A history always holds the most recent values: after writing `xs` to a
/// history that held `h`, it holds the last `h.len()` values of `h + xs`. In
/// particular, once at least `h.len()` values have been written, it holds
/// exactly the last `h.len()` of them, in the order they were written.
pub proof fn law_history_holds_latest<T>(h: Seq<T>, xs: Seq<T>)
    requires
        h.len() > 0,
    ensures
        spec_push_all(h, xs) == (h + xs).subrange(xs.len() as int, (xs.len() + h.len()) as int),
        xs.len() >= h.len() ==> spec_push_all(h, xs) == xs.subrange(
            xs.len() - h.len(),
            xs.len() as int,
        ),
    decreases xs.len(),
{
    if xs.len() == 0 {
        assert(h + xs =~= h);
        assert((h + xs).subrange(0, h.len() as int) =~= h);
    } else {
        let ys = xs.drop_last();
        law_history_holds_latest(h, ys);
        assert(spec_push_all(h, xs) =~= (h + xs).subrange(
            xs.len() as int,
            (xs.len() + h.len()) as int,
        ));
    }
    if xs.len() >= h.len() {
        assert((h + xs).subrange(xs.len() as int, (xs.len() + h.len()) as int) =~= xs.subrange(
            xs.len() - h.len(),
            xs.len() as int,
        ));
    }
}

} // verus!
