//! Ring buffer that keeps the most recent audio samples.
use vstd::prelude::*;
use crate::vad::silero::last_n;

verus! {

/// Where the `i`-th oldest of `len` kept samples lives, for a ring of
/// `cap` slots whose next write goes to `wp`.
pub open spec fn slot(wp: int, len: int, cap: int, i: int) -> int {
    if wp + i >= len {
        wp + i - len
    } else {
        wp + i + cap - len
    }
}

/// A ring buffer holding the most recent samples, up to its capacity.
pub struct AudioBuffer<T> {
    buffer: Vec<T>,
    capacity: usize,
    write_pos: usize,
    len: usize,
    kept: Ghost<Seq<T>>,
}

impl<T: Copy> AudioBuffer<T> {
    /// The samples held, oldest first.
    pub closed spec fn view(&self) -> Seq<T> {
        self.kept@
    }

    /// How many samples it can hold.
    pub closed spec fn cap(&self) -> nat {
        self.capacity as nat
    }

    /// The ring's slots hold exactly the kept samples, in order.
    pub closed spec fn wf(&self) -> bool {
        &&& self.buffer@.len() == self.capacity
        &&& self.len <= self.capacity
        &&& (self.capacity > 0 ==> self.write_pos < self.capacity)
        &&& (self.capacity == 0 ==> self.write_pos == 0)
        &&& self.kept@.len() == self.len
        &&& forall|i: int| 0 <= i < self.len ==> #[trigger] self.kept@[i] == self.buffer@[slot(
            self.write_pos as int,
            self.len as int,
            self.capacity as int,
            i,
        )]
    }

    /// A buffer for `capacity` samples, its slots filled with `silence`.
    pub fn new(capacity: usize, silence: T) -> (r: Self)
        ensures
            r.wf(),
            r.cap() == capacity,
            r.view().len() == 0,
    {
        let mut buffer: Vec<T> = Vec::new();
        let mut i: usize = 0;
        while i < capacity
            invariant
                i <= capacity,
                buffer@.len() == i,
            decreases capacity - i,
        {
            buffer.push(silence);
            i = i + 1;
        }
        AudioBuffer { buffer, capacity, write_pos: 0, len: 0, kept: Ghost(Seq::empty()) }
    }

    /// Number of samples held.
    pub fn len(&self) -> (r: usize)
        requires
            self.wf(),
        ensures
            r == self.view().len(),
    {
        self.len
    }

    /// Capacity in samples.
    pub fn capacity(&self) -> (r: usize)
        ensures
            r == self.cap(),
    {
        self.capacity
    }

    fn push_one(&mut self, x: T)
        requires
            old(self).wf(),
            old(self).cap() > 0,
        ensures
            final(self).wf(),
            final(self).cap() == old(self).cap(),
            final(self).view() == last_n(old(self).view().push(x), old(self).cap()),
    {
        let ghost old_kept = self.kept@;
        let ghost wp = self.write_pos as int;
        let ghost len = self.len as int;
        let ghost cap = self.capacity as int;
        let ghost old_buf = self.buffer@;
        let pos = self.write_pos;
        self.buffer.set(pos, x);
        self.write_pos = if pos + 1 == self.capacity {
            0
        } else {
            pos + 1
        };
        let ghost wp2 = self.write_pos as int;
        if self.len < self.capacity {
            self.len = self.len + 1;
            self.kept = Ghost(old_kept.push(x));
            assert forall|i: int| 0 <= i < len + 1 implies #[trigger] self.kept@[i] == self.buffer@[slot(
                wp2,
                len + 1,
                cap,
                i,
            )] by {
                if i < len {
                    assert(slot(wp2, len + 1, cap, i) == slot(wp, len, cap, i));
                    assert(slot(wp, len, cap, i) != wp);
                } else {
                    assert(slot(wp2, len + 1, cap, i) == wp);
                }
            }
            assert(last_n(old_kept.push(x), cap as nat) == old_kept.push(x));
        } else {
            let ghost nk = old_kept.push(x).skip(1);
            self.kept = Ghost(nk);
            assert forall|i: int| 0 <= i < len implies #[trigger] self.kept@[i] == self.buffer@[slot(
                wp2,
                len,
                cap,
                i,
            )] by {
                if i < len - 1 {
                    assert(nk[i] == old_kept[i + 1]);
                    assert(slot(wp2, len, cap, i) == slot(wp, len, cap, i + 1));
                    assert(slot(wp, len, cap, i + 1) != wp);
                } else {
                    assert(nk[i] == x);
                    assert(slot(wp2, len, cap, i) == wp);
                }
            }
            assert(last_n(old_kept.push(x), cap as nat) =~= nk);
        }
    }

    /// Appends samples; once full, each new sample replaces the oldest.
    pub fn push(&mut self, samples: &[T])
        requires
            old(self).wf(),
            old(self).cap() > 0 || samples@.len() == 0,
        ensures
            final(self).wf(),
            final(self).cap() == old(self).cap(),
            final(self).view() == last_n(old(self).view() + samples@, old(self).cap()),
    {
        let ghost start = self.kept@;
        let ghost cap = self.capacity as nat;
        let mut i: usize = 0;
        assert(start + samples@.take(0) =~= start);
        assert(last_n(start, cap) == start);
        while i < samples.len()
            invariant
                self.wf(),
                self.cap() == cap,
                cap > 0 || samples@.len() == 0,
                start.len() <= cap,
                i <= samples@.len(),
                self.view() == last_n(start + samples@.take(i as int), cap),
            decreases samples@.len() - i,
        {
            let ghost before = start + samples@.take(i as int);
            let ghost after = start + samples@.take(i + 1);
            assert(after =~= before.push(samples@[i as int]));
            self.push_one(samples[i]);
            assert(last_n(last_n(before, cap).push(samples@[i as int]), cap) =~= last_n(after, cap));
            i = i + 1;
        }
        assert(samples@.take(samples@.len() as int) =~= samples@);
    }

    /// The most recent `requested` samples (all of them when fewer are
    /// held), oldest first.
    pub fn last_samples(&self, requested: usize) -> (r: Vec<T>)
        requires
            self.wf(),
        ensures
            r@ == last_n(self.view(), requested as nat),
    {
        let available = if requested < self.len {
            requested
        } else {
            self.len
        };
        let mut out: Vec<T> = Vec::new();
        if available == 0 {
            assert(last_n(self.view(), requested as nat) =~= Seq::<T>::empty());
            return out;
        }
        let ghost len = self.len as int;
        let ghost off = len - available;
        let mut i: usize = 0;
        while i < available
            invariant
                self.wf(),
                available == if requested < self.len { requested } else { self.len },
                off == self.len - available,
                i <= available,
                out@ == self.view().subrange(off, off + i),
            decreases available - i,
        {
            let ghost k = off + i;
            let back = available - i;
            let pos = if self.write_pos >= back {
                self.write_pos - back
            } else {
                self.capacity - (back - self.write_pos)
            };
            assert(pos == slot(self.write_pos as int, self.len as int, self.capacity as int, k));
            assert(self.view()[k] == self.buffer@[pos as int]);
            out.push(self.buffer[pos]);
            i = i + 1;
            assert(out@ =~= self.view().subrange(off, off + i));
        }
        assert(last_n(self.view(), requested as nat) =~= self.view().subrange(off, len));
        out
    }

    /// Every sample held, oldest first; the buffer is then empty.
    pub fn drain(&mut self) -> (r: Vec<T>)
        requires
            old(self).wf(),
        ensures
            r@ == old(self).view(),
            final(self).wf(),
            final(self).cap() == old(self).cap(),
            final(self).view().len() == 0,
    {
        let n = self.len;
        let r = self.last_samples(n);
        assert(last_n(self.view(), n as nat) == self.view());
        self.clear();
        r
    }

    /// Forgets every sample held.
    pub fn clear(&mut self)
        requires
            old(self).wf(),
        ensures
            final(self).wf(),
            final(self).cap() == old(self).cap(),
            final(self).view().len() == 0,
    {
        self.write_pos = 0;
        self.len = 0;
        self.kept = Ghost(Seq::empty());
    }
}

/// A ring buffer keeps exactly the most recent samples pushed since it was
/// last cleared, up to its capacity: pushing `a` then `b` is pushing `a + b`.
pub proof fn lemma_push_composes<T>(v: Seq<T>, a: Seq<T>, b: Seq<T>, cap: nat)
    requires
        v.len() <= cap,
    ensures
        last_n(last_n(v + a, cap) + b, cap) == last_n(v + a + b, cap),
{
    let x = v + a;
    let y = last_n(x, cap);
    assert(last_n(y + b, cap) =~= last_n(x + b, cap));
}

} // verus!
