//! Ranges of values that an experiment sweeps over.
use vstd::prelude::*;

verus! {

/// The values a parameter takes: one value, a list, every integer from `start`
/// to `end`, or every `stride`-th value from `start` up to `end`.
#[derive(Clone, Debug)]
pub enum ExperimentRange<T> {
    Fixed(T),
    List(Vec<T>),
    Range { start: T, end: T },
    RangeStride { start: T, end: T, stride: T },
}

impl<T> ExperimentRange<T> {
    /// Whether the parameter can take more than one value (a list counts only
    /// when it holds more than one value).
    pub open spec fn spec_is_variable(&self) -> bool {
        match self {
            ExperimentRange::Fixed(_) => false,
            ExperimentRange::List(l) => l@.len() > 1,
            _ => true,
        }
    }

    /// Whether the parameter can take more than one value.
    pub fn is_variable(&self) -> (r: bool)
        ensures
            r == self.spec_is_variable(),
    {
        match self {
            ExperimentRange::Fixed(_) => false,
            ExperimentRange::List(l) => l.len() > 1,
            _ => true,
        }
    }

    /// An iterator over the values, from the first on.
    pub fn into_iter(self) -> (it: ExperimentRangeIter<T>)
        ensures
            it.range() == self,
            it.index() == 0,
    {
        ExperimentRangeIter { range: self, idx: 0 }
    }
}

/// The `i`-th value (from 0) of an integer range, if it has one.
pub open spec fn nth(r: ExperimentRange<u64>, i: nat) -> Option<u64> {
    match r {
        ExperimentRange::Fixed(v) => if i == 0 { Some(v) } else { None },
        ExperimentRange::List(l) => if i < l@.len() { Some(l@[i as int]) } else { None },
        ExperimentRange::Range { start, end } => if end >= start && i <= end - start {
            Some((start + i) as u64)
        } else {
            None
        },
        ExperimentRange::RangeStride { start, end, stride } => if end >= start && i * stride <= end
            - start {
            Some((start + stride * i) as u64)
        } else {
            None
        },
    }
}

/// An iterator over the values of a range.
#[derive(Clone, Debug)]
pub struct ExperimentRangeIter<T> {
    range: ExperimentRange<T>,
    idx: usize,
}

impl<T> ExperimentRangeIter<T> {
    /// The range iterated over.
    pub closed spec fn range(&self) -> ExperimentRange<T> {
        self.range
    }

    /// The number of values handed out so far.
    pub closed spec fn index(&self) -> nat {
        self.idx as nat
    }

    /// The range iterated over.
    pub fn source(&self) -> (r: &ExperimentRange<T>)
        ensures
            *r == self.range(),
    {
        &self.range
    }

    /// The number of values handed out so far.
    pub fn position(&self) -> (r: usize)
        ensures
            r == self.index(),
    {
        self.idx
    }

    /// Counts one more value as handed out.
    pub fn advance(&mut self)
        requires
            old(self).index() < usize::MAX,
        ensures
            final(self).range() == old(self).range(),
            final(self).index() == old(self).index() + 1,
    {
        self.idx = self.idx + 1;
    }
}

impl ExperimentRangeIter<u64> {
    /// The next value: the value at the current position, which then moves on;
    /// `None`, with the position kept, once the range is exhausted.
    pub fn next(&mut self) -> (r: Option<u64>)
        requires
            old(self).index() < usize::MAX || nth(old(self).range(), old(self).index()) is None,
            old(self).range() matches ExperimentRange::RangeStride { start, end, stride } ==> (end
                >= start ==> old(self).index() * stride <= u64::MAX),
        ensures
            r == nth(old(self).range(), old(self).index()),
            final(self).range() == old(self).range(),
            final(self).index() == old(self).index() + if r is Some { 1nat } else { 0nat },
    {
        let i = self.idx;
        let out = match &self.range {
            ExperimentRange::Fixed(v) => if i == 0 { Some(*v) } else { None },
            ExperimentRange::List(l) => if i < l.len() { Some(l[i]) } else { None },
            ExperimentRange::Range { start, end } => {
                if *end >= *start && (i as u64) <= *end - *start {
                    Some(*start + i as u64)
                } else {
                    None
                }
            },
            ExperimentRange::RangeStride { start, end, stride } => {
                if *end >= *start {
                    let offset = (i as u64) * *stride;
                    proof {
                        assert(offset == *stride * i) by (nonlinear_arith)
                            requires
                                offset == i * *stride,
                        ;
                    }
                    if offset <= *end - *start {
                        Some(*start + offset)
                    } else {
                        None
                    }
                } else {
                    None
                }
            },
        };
        if out.is_some() {
            self.idx = self.idx + 1;
        }
        out
    }
}

impl ExperimentRange<u64> {
    /// An iterator over a copy of the values, from the first on.
    pub fn iter(&self) -> (it: ExperimentRangeIter<u64>)
        ensures
            forall|i: nat| #[trigger] nth(it.range(), i) == nth(*self, i),
            it.index() == 0,
    {
        let copy = match self {
            ExperimentRange::Fixed(v) => ExperimentRange::Fixed(*v),
            ExperimentRange::List(l) => {
                let c = l.clone();
                assert(c@ =~= l@);
                ExperimentRange::List(c)
            },
            ExperimentRange::Range { start, end } => ExperimentRange::Range { start: *start, end: *end },
            ExperimentRange::RangeStride { start, end, stride } => ExperimentRange::RangeStride {
                start: *start,
                end: *end,
                stride: *stride,
            },
        };
        ExperimentRangeIter { range: copy, idx: 0 }
    }
}

/// Once a range has no `i`-th value it has no later value either: the values
/// of a range form an unbroken run from the first on.
pub proof fn law_exhaustion_is_final(r: ExperimentRange<u64>, i: nat, j: nat)
    requires
        i <= j,
        nth(r, i) is None,
    ensures
        nth(r, j) is None,
{
    if let ExperimentRange::RangeStride { start, end, stride } = r {
        if end >= start {
            assert(i * stride <= j * stride) by (nonlinear_arith)
                requires
                    i <= j,
            ;
        }
    }
}

/// An integer range from `start` to `end` yields exactly the integers from
/// `start` to `end`, in increasing order.
pub proof fn law_range_yields_interval(start: u64, end: u64, i: nat)
    requires
        start <= end,
    ensures
        i <= end - start ==> nth(ExperimentRange::Range { start, end }, i) == Some((start + i) as u64),
        i > end - start ==> nth(ExperimentRange::Range { start, end }, i) is None,
{
}

/// The values of each kind of range, from the first on: a fixed value once; a
/// list's items in order; the integers from `start` to `end`; and `start`,
/// `start + stride`, ... for as long as they stay within `end`, which for a
/// positive stride is `(end - start) / stride + 1` values, and for a zero
/// stride is `start` without end. A range whose end lies below its start has
/// no value.
pub proof fn law_range_values(r: ExperimentRange<u64>, i: nat)
    ensures
        r matches ExperimentRange::Fixed(v) ==> nth(r, i) == if i == 0 { Some(v) } else { None },
        r matches ExperimentRange::List(l) ==> nth(r, i) == if i < l@.len() {
            Some(l@[i as int])
        } else {
            None
        },
        r matches ExperimentRange::Range { start, end } ==> nth(r, i) == if start <= end && i <= end
            - start {
            Some((start + i) as u64)
        } else {
            None
        },
        r matches ExperimentRange::RangeStride { start, end, stride } ==> {
            &&& end < start ==> nth(r, i) is None
            &&& (start <= end && stride == 0) ==> nth(r, i) == Some(start)
            &&& (start <= end && stride > 0) ==> (nth(r, i) is Some <==> i <= (end - start) / (
            stride as int))
            &&& nth(r, i) is Some ==> nth(r, i).unwrap() == start + stride * i
        },
{
    if let ExperimentRange::RangeStride { start, end, stride } = r {
        if start <= end && stride > 0 {
            let d: int = end - start;
            let s: int = stride as int;
            assert(i * s <= d <==> i <= d / s) by (nonlinear_arith)
                requires
                    s > 0,
                    d >= 0,
            ;
        }
        assert(i * stride == stride * i) by (nonlinear_arith);
        if stride == 0 {
            assert(i * stride == 0) by (nonlinear_arith)
                requires
                    stride == 0,
            ;
        }
    }
}

/// What `n` successive calls of `next` return on an iterator over `r` that
/// stands at index `idx`, each call as `next` states it: the value at the
/// index, which moves on only when a value is returned.
pub open spec fn successive(r: ExperimentRange<u64>, idx: nat, n: nat) -> Seq<Option<u64>>
    decreases n,
{
    if n == 0 {
        Seq::empty()
    } else {
        let next_idx = if nth(r, idx) is Some { idx + 1 } else { idx };
        seq![nth(r, idx)] + successive(r, next_idx, (n - 1) as nat)
    }
}

/// Successive calls of `next` give the values of the range in order from the
/// iterator's index on: the `k`-th call returns the value `k` places further,
/// so from a fresh iterator the calls return the range's values one after
/// the other (as `law_range_values` lists them), then `None` for ever.
pub proof fn law_successive_values(r: ExperimentRange<u64>, idx: nat, n: nat)
    ensures
        successive(r, idx, n).len() == n,
        forall|k: int| 0 <= k < n ==> #[trigger] successive(r, idx, n)[k] == nth(r, idx + k as nat),
    decreases n,
{
    if n > 0 {
        let next_idx = if nth(r, idx) is Some { idx + 1 } else { idx };
        law_successive_values(r, next_idx, (n - 1) as nat);
        let rest = successive(r, next_idx, (n - 1) as nat);
        assert(successive(r, idx, n) == seq![nth(r, idx)] + rest);
        assert forall|k: int| 0 <= k < n implies #[trigger] successive(r, idx, n)[k] == nth(r, idx + k as nat) by {
            if k > 0 {
                assert(successive(r, idx, n)[k] == rest[k - 1]);
                if nth(r, idx) is None {
                    law_exhaustion_is_final(r, idx, (idx + k - 1) as nat);
                    law_exhaustion_is_final(r, idx, (idx + k) as nat);
                }
            }
        }
    }
}

/// Once `next` has returned `None`, every later call returns `None` and leaves
/// the iterator where it stands.
pub proof fn law_exhausted_iterator_stays(r: ExperimentRange<u64>, idx: nat, n: nat)
    requires
        nth(r, idx) is None,
    ensures
        forall|k: int| 0 <= k < n ==> #[trigger] successive(r, idx, n)[k] is None,
        n > 0 ==> successive(r, idx, n) == seq![None::<u64>] + successive(r, idx, (n - 1) as nat),
{
    law_successive_values(r, idx, n);
    assert forall|k: int| 0 <= k < n implies #[trigger] successive(r, idx, n)[k] is None by {
        law_exhaustion_is_final(r, idx, idx + k as nat);
    }
}

} // verus!
