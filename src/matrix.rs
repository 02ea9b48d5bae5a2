use vstd::prelude::*;

verus! {

/// A vector of a fixed number of components.
#[derive(Debug, Clone, Copy, PartialEq, Eq)]
pub struct Vector<T, const DIM: usize> {
    pub data: [T; DIM],
}

impl<T, const LEN: usize> Vector<T, LEN> {
    pub fn new(data: [T; LEN]) -> (r: Self)
        ensures
            r.data == data,
    {
        Self { data }
    }
}

impl<T, const LEN: usize> From<[T; LEN]> for Vector<T, LEN> {
    fn from(data: [T; LEN]) -> (r: Self) {
        Self { data }
    }
}

impl<T, const LEN: usize> vstd::std_specs::convert::FromSpecImpl<[T; LEN]> for Vector<T, LEN> {
    open spec fn obeys_from_spec() -> bool {
        true
    }

    open spec fn from_spec(data: [T; LEN]) -> Self {
        Vector { data }
    }
}

} // verus!
