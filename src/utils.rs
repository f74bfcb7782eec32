use vstd::prelude::*;

verus! {

/// A pair of options made into an option of a pair: `Some` only when both are.
pub trait ExtractableOptionTuple2<T1, T2>: Sized {
    spec fn extracted(self) -> Option<(T1, T2)>;

    fn extract(self) -> (r: Option<(T1, T2)>)
        ensures
            r == self.extracted();
}

impl<T1, T2> ExtractableOptionTuple2<T1, T2> for (Option<T1>, Option<T2>) {
    open spec fn extracted(self) -> Option<(T1, T2)> {
        match self {
            (Some(a), Some(b)) => Some((a, b)),
            _ => None,
        }
    }

    fn extract(self) -> (r: Option<(T1, T2)>) {
        match self {
            (Some(a), Some(b)) => Some((a, b)),
            _ => None,
        }
    }
}

/// A triple of options made into an option of a triple: `Some` only when all
/// three are.
pub trait ExtractableOptionTuple3<T1, T2, T3>: Sized {
    spec fn extracted(self) -> Option<(T1, T2, T3)>;

    fn extract(self) -> (r: Option<(T1, T2, T3)>)
        ensures
            r == self.extracted();
}

impl<T1, T2, T3> ExtractableOptionTuple3<T1, T2, T3> for (Option<T1>, Option<T2>, Option<T3>) {
    open spec fn extracted(self) -> Option<(T1, T2, T3)> {
        match self {
            (Some(a), Some(b), Some(c)) => Some((a, b, c)),
            _ => None,
        }
    }

    fn extract(self) -> (r: Option<(T1, T2, T3)>) {
        match self {
            (Some(a), Some(b), Some(c)) => Some((a, b, c)),
            _ => None,
        }
    }
}

} // verus!
