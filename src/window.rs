use vstd::prelude::*;

verus! {

/// Columns of the viewport kept free for the graph's border and axis labels.
pub const HORIZONTAL_MARGIN: u32 = 10;

/// How many samples fit across a viewport `width` cells wide.
pub open spec fn capacity_for(width: u32) -> nat {
    if width >= HORIZONTAL_MARGIN {
        (width - HORIZONTAL_MARGIN) as nat
    } else {
        0
    }
}

/// The window after appending `x` to `s` and trimming from the front to `cap` entries.
pub open spec fn pushed(s: Seq<u64>, x: u64, cap: nat) -> Seq<u64> {
    let t = s.push(x);
    if t.len() > cap {
        t.subrange(t.len() - cap, t.len() as int)
    } else {
        t
    }
}

/// The window reached from `start` by pushing each of `xs` in turn, with capacity `cap`.
pub open spec fn pushed_all(start: Seq<u64>, xs: Seq<u64>, cap: nat) -> Seq<u64>
    decreases xs.len(),
{
    if xs.len() == 0 {
        start
    } else {
        pushed(pushed_all(start, xs.drop_last(), cap), xs.last(), cap)
    }
}

/// The last `min(cap, s.len())` entries of `s`.
pub open spec fn latest(s: Seq<u64>, cap: nat) -> Seq<u64> {
    if s.len() > cap {
        s.subrange(s.len() - cap, s.len() as int)
    } else {
        s
    }
}

/// Sample capacity of a viewport: its width less the horizontal margin, or zero.
pub fn window_capacity(width: u32) -> (r: usize)
    ensures
        r as nat == capacity_for(width),
{
    if width >= HORIZONTAL_MARGIN {
        (width - HORIZONTAL_MARGIN) as usize
    } else {
        0
    }
}

/// An insertion-ordered, bounded run of throughput samples, oldest first.
pub struct SampleWindow {
    samples: Vec<u64>,
}

impl View for SampleWindow {
    type V = Seq<u64>;

    closed spec fn view(&self) -> Seq<u64> {
        self.samples@
    }
}

impl SampleWindow {
    /// An empty window.
    pub fn new() -> (r: SampleWindow)
        ensures
            r@ == Seq::<u64>::empty(),
    {
        SampleWindow { samples: Vec::new() }
    }

    pub fn len(&self) -> (r: usize)
        ensures
            r == self@.len(),
    {
        self.samples.len()
    }

    /// The samples held, oldest first.
    pub fn samples(&self) -> (r: &Vec<u64>)
        ensures
            r@ == self@,
    {
        &self.samples
    }

    /// Appends `rate`, then drops the oldest samples until at most `capacity` remain.
    pub fn push(&mut self, rate: u64, capacity: usize)
        ensures
            final(self)@ == pushed(old(self)@, rate, capacity as nat),
    {
        let ghost t = old(self)@.push(rate);
        self.samples.push(rate);
        let ghost mut dropped: int = 0;
        while self.samples.len() > capacity
            invariant
                0 <= dropped <= t.len(),
                self.samples@ == t.subrange(dropped, t.len() as int),
                t.len() > capacity ==> dropped <= t.len() - capacity,
                t.len() <= capacity ==> dropped == 0,
            decreases self.samples.len(),
        {
            self.samples.remove(0);
            proof {
                dropped = dropped + 1;
            }
        }
    }

    /// Pushes `rate` with the capacity that a viewport `width` cells wide allows.
    pub fn push_for_width(&mut self, rate: u64, width: u32)
        ensures
            final(self)@ == pushed(old(self)@, rate, capacity_for(width)),
    {
        let cap = window_capacity(width);
        self.push(rate, cap);
    }
}

/// Whatever the pushes, a window of capacity `cap` holds exactly the `cap` most
/// recent values (all of them, when fewer were pushed), oldest first.
pub proof fn lemma_window_keeps_latest(xs: Seq<u64>, cap: nat)
    ensures
        pushed_all(Seq::<u64>::empty(), xs, cap) == latest(xs, cap),
        xs.len() > cap ==> pushed_all(Seq::<u64>::empty(), xs, cap) == xs.subrange(
            xs.len() - cap,
            xs.len() as int,
        ),
    decreases xs.len(),
{
    if xs.len() > 0 {
        let prev = xs.drop_last();
        lemma_window_keeps_latest(prev, cap);
        let w = latest(prev, cap);
        let t = w.push(xs.last());
        assert(xs =~= prev.push(xs.last()));
        if prev.len() > cap {
            assert(t.subrange(t.len() - cap, t.len() as int) =~= xs.subrange(
                xs.len() - cap,
                xs.len() as int,
            ));
        } else if xs.len() > cap {
            assert(t =~= xs);
        } else {
            assert(t =~= xs);
        }
    } else {
        assert(pushed_all(Seq::<u64>::empty(), xs, cap) =~= latest(xs, cap));
    }
}

} // verus!
