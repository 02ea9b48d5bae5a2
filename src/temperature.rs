use vstd::prelude::*;

verus! {

/// Row `j` of the isotherm table ends the scan for a test point whose side of each row's
/// isotherm is given by `crossed` (`crossed[k]`: the point lies on or past isotherm `k`).
/// The scan starts at the second row and stops at the first row that the point has
/// crossed, or at the last row when it has crossed none.
pub open spec fn ends_scan(crossed: Seq<bool>, j: int) -> bool {
    &&& 1 <= j < crossed.len()
    &&& crossed[j] || j == crossed.len() - 1
    &&& forall|k: int| 1 <= k < j ==> !#[trigger] crossed[k]
}

/// The row that ends the isotherm scan: the temperature is interpolated between it and
/// the row before. `None` only for a table of fewer than two rows, where no pair exists.
pub fn isotherm_pair(crossed: &[bool]) -> (r: Option<usize>)
    ensures
        r is None <==> crossed@.len() < 2,
        r matches Some(j) ==> ends_scan(crossed@, j as int),
{
    let n = crossed.len();
    if n < 2 {
        return None;
    }
    let mut j: usize = 1;
    while j < n - 1
        invariant
            2 <= n == crossed@.len(),
            1 <= j <= n - 1,
            forall|k: int| 1 <= k < j ==> !#[trigger] crossed@[k],
        decreases n - j,
    {
        if crossed[j] {
            return Some(j);
        }
        j = j + 1;
    }
    Some(j)
}

/// Every table of two rows or more ends the scan at exactly one row, whatever side of
/// each isotherm the test point lies on.
pub proof fn lemma_scan_ends_once(crossed: Seq<bool>)
    requires
        crossed.len() >= 2,
    ensures
        exists|j: int| ends_scan(crossed, j),
        forall|i: int, j: int| ends_scan(crossed, i) && ends_scan(crossed, j) ==> i == j,
{
    lemma_scan_ends_from(crossed, 1);
    assert forall|i: int, j: int| ends_scan(crossed, i) && ends_scan(crossed, j) implies i
        == j by {
        if i < j {
            assert(!crossed[i]);
        } else if j < i {
            assert(!crossed[j]);
        }
    }
}

proof fn lemma_scan_ends_from(crossed: Seq<bool>, j: int)
    requires
        crossed.len() >= 2,
        1 <= j < crossed.len(),
        forall|k: int| 1 <= k < j ==> !#[trigger] crossed[k],
    ensures
        exists|i: int| ends_scan(crossed, i),
    decreases crossed.len() - j,
{
    if crossed[j] || j == crossed.len() - 1 {
        assert(ends_scan(crossed, j));
    } else {
        assert forall|k: int| 1 <= k < j + 1 implies !#[trigger] crossed[k] by {
            if k < j {
                assert(!crossed[k]);
            }
        }
        lemma_scan_ends_from(crossed, j + 1);
    }
}

} // verus!
