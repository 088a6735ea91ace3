use vstd::prelude::*;

verus! {

/// The values shown by the live plot: a window of `N` most recent values
/// that may grow to `2N` before it is cut back.
pub struct PlotBuffer<T> {
    values: Vec<T>,
    window: usize,
}

impl<T> View for PlotBuffer<T> {
    type V = Seq<T>;

    closed spec fn view(&self) -> Seq<T> {
        self.values@
    }
}

/// The values after pushing `v` onto `vals` with window `n`: when the buffer
/// already holds `2n` values or more, only the `n` most recent are kept first.
pub open spec fn pushed<T>(vals: Seq<T>, n: nat, v: T) -> Seq<T> {
    if vals.len() >= 2 * n {
        vals.subrange(vals.len() - n, vals.len() as int).push(v)
    } else {
        vals.push(v)
    }
}

/// The length bound that the buffer keeps: `2n`, or one value for an empty
/// window.
pub open spec fn within_bound(len: nat, n: nat) -> bool {
    len <= 2 * n || len <= 1
}

impl<T> PlotBuffer<T> {
    /// The window fits twice in a `usize`, and the length stays within bound.
    pub closed spec fn wf(&self) -> bool {
        &&& self.window <= usize::MAX / 2
        &&& within_bound(self.values@.len(), self.window as nat)
    }

    pub closed spec fn spec_window(&self) -> nat {
        self.window as nat
    }

    /// An empty buffer for a window of `window` values.
    pub fn new(window: usize) -> (r: PlotBuffer<T>)
        requires
            window <= usize::MAX / 2,
        ensures
            r@ == Seq::<T>::empty(),
            r.spec_window() == window,
            r.wf(),
    {
        PlotBuffer { values: Vec::new(), window }
    }

    pub fn window(&self) -> (r: usize)
        ensures
            r == self.spec_window(),
    {
        self.window
    }

    pub fn len(&self) -> (r: usize)
        requires
            self.wf(),
        ensures
            r == self@.len(),
            within_bound(r as nat, self.spec_window()),
    {
        self.values.len()
    }

    /// The values, oldest first.
    pub fn values(&self) -> (r: &Vec<T>)
        ensures
            r@ == self@,
    {
        &self.values
    }

    /// Adds `v` as the most recent value, first cutting the buffer back to
    /// its `N` most recent values when it already holds `2N`.
    pub fn push(&mut self, v: T)
        requires
            old(self).wf(),
        ensures
            final(self).wf(),
            final(self).spec_window() == old(self).spec_window(),
            final(self)@ == pushed(old(self)@, old(self).spec_window(), v),
            within_bound(old(self)@.len(), old(self).spec_window()),
            within_bound(final(self)@.len(), final(self).spec_window()),
            old(self)@.len() >= 2 * old(self).spec_window() ==> final(self)@.len()
                == old(self).spec_window() + 1,
    {
        let n = self.window;
        let len = self.values.len();
        if len >= 2 * n {
            let recent = self.values.split_off(len - n);
            self.values = recent;
        }
        self.values.push(v);
    }

    /// Takes the parsed form of one raw value: a value that parsed is pushed,
    /// one that did not leaves the buffer as it was.
    pub fn offer(&mut self, parsed: Option<T>)
        requires
            old(self).wf(),
        ensures
            final(self).wf(),
            final(self).spec_window() == old(self).spec_window(),
            final(self)@ == match parsed {
                Some(v) => pushed(old(self)@, old(self).spec_window(), v),
                None => old(self)@,
            },
    {
        match parsed {
            Some(v) => self.push(v),
            None => {},
        }
    }
}

/// With a window of `N ≥ 1` values the buffer never holds more than `2N`
/// values before a push, and a push that cuts it back leaves `N + 1`.
pub proof fn lemma_plot_bounds<T>(vals: Seq<T>, n: nat, v: T)
    requires
        n >= 1,
        within_bound(vals.len(), n),
    ensures
        vals.len() <= 2 * n,
        pushed(vals, n, v).len() <= 2 * n,
        vals.len() >= 2 * n ==> pushed(vals, n, v).len() == n + 1,
{
}

} // verus!
