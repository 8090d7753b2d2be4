//! The grid coordinate model: bounds checking and index mapping for a
//! `width` by `height` cell space, with the counting facts the engine's
//! invariants rest on.
use vstd::prelude::*;

verus! {

/// True when `cell` lies on a `width` by `height` grid.
pub open spec fn cell_in_bounds(cell: (usize, usize), width: usize, height: usize) -> bool {
    cell.0 < width && cell.1 < height
}

/// Maps a cell to its column-major index: column `x` holds the indices
/// `x * height .. (x + 1) * height`.
pub open spec fn cell_index(cell: (usize, usize), height: usize) -> int {
    cell.0 * height + cell.1
}

/// The inverse of [`cell_index`]: the cell a column-major index denotes.
pub open spec fn cell_at(i: int, height: usize) -> (usize, usize) {
    ((i / (height as int)) as usize, (i % (height as int)) as usize)
}

/// An in-bounds cell's index lies in `0 .. width * height`.
proof fn lemma_cell_index_in_range(cell: (usize, usize), width: usize, height: usize)
    requires
        cell_in_bounds(cell, width, height),
    ensures
        0 <= cell_index(cell, height) < width * height,
{
    assert(cell.0 * height + cell.1 < width * height) by (nonlinear_arith)
        requires
            cell.0 < width,
            cell.1 < height,
    ;
}

/// Distinct in-bounds cells have distinct indices.
proof fn lemma_cell_index_injective(c1: (usize, usize), c2: (usize, usize), height: usize)
    requires
        c1.1 < height,
        c2.1 < height,
        cell_index(c1, height) == cell_index(c2, height),
    ensures
        c1 == c2,
{
    assert(c1.0 == c2.0 && c1.1 == c2.1) by (nonlinear_arith)
        requires
            c1.1 < height,
            c2.1 < height,
            c1.0 * height + c1.1 == c2.0 * height + c2.1,
    ;
}

/// Decoding an index in `0 .. width * height` yields an in-bounds cell,
/// and encoding it again gives the index back.
proof fn lemma_cell_at_inverse(i: int, width: usize, height: usize)
    requires
        0 < height,
        0 <= i < width * height,
    ensures
        cell_in_bounds(cell_at(i, height), width, height),
        cell_index(cell_at(i, height), height) == i,
{
    let h = height as int;
    vstd::arithmetic::div_mod::lemma_fundamental_div_mod(i, h);
    vstd::arithmetic::div_mod::lemma_remainder_lower(i, h);
    vstd::arithmetic::div_mod::lemma_remainder_upper(i, h);
    vstd::arithmetic::div_mod::lemma_div_pos_is_pos(i, h);
    assert(i / h < width) by (nonlinear_arith)
        requires
            0 < h,
            0 <= i < width * h,
            i == h * (i / h) + (i % h),
            0 <= i % h < h,
    ;
}

/// A sequence of distinct in-bounds cells cannot be longer than the grid
/// has cells.
pub proof fn lemma_distinct_cells_at_most_area(s: Seq<(usize, usize)>, width: usize, height: usize)
    requires
        0 < height,
        forall|i: int| 0 <= i < s.len() ==> cell_in_bounds(#[trigger] s[i], width, height),
        s.no_duplicates(),
    ensures
        s.len() <= width * height,
{
    broadcast use vstd::seq_lib::seq_to_set_is_finite;

    let area = (width * height) as int;
    let t = s.map_values(|c: (usize, usize)| cell_index(c, height));
    assert(t.no_duplicates()) by {
        assert forall|i: int, j: int|
            0 <= i < t.len() && 0 <= j < t.len() && i != j implies t[i] != t[j] by {
            if t[i] == t[j] {
                lemma_cell_index_injective(s[i], s[j], height);
            }
        }
    }
    t.unique_seq_to_set();
    let range = vstd::set_lib::set_int_range(0, area);
    vstd::set_lib::lemma_int_range(0, area);
    assert(t.to_set().subset_of(range)) by {
        assert forall|x: int| t.to_set().contains(x) implies range.contains(x) by {
            let i = choose|i: int| 0 <= i < t.len() && t[i] == x;
            lemma_cell_index_in_range(s[i], width, height);
        }
    }
    vstd::set_lib::lemma_len_subset(t.to_set(), range);
}

/// On a grid that the given cells do not fully cover, some in-bounds cell
/// is free.
pub proof fn lemma_free_cell_exists(s: Seq<(usize, usize)>, width: usize, height: usize)
    requires
        0 < width,
        0 < height,
        s.len() < width * height,
    ensures
        exists|c: (usize, usize)| cell_in_bounds(c, width, height) && !s.contains(c),
{
    broadcast use vstd::seq_lib::seq_to_set_is_finite;

    if !(exists|c: (usize, usize)| cell_in_bounds(c, width, height) && !s.contains(c)) {
        let area = (width * height) as int;
        let u = Seq::new(area as nat, |i: int| cell_at(i, height));
        assert(u.no_duplicates()) by {
            assert forall|i: int, j: int|
                0 <= i < u.len() && 0 <= j < u.len() && i != j implies u[i] != u[j] by {
                lemma_cell_at_inverse(i, width, height);
                lemma_cell_at_inverse(j, width, height);
            }
        }
        u.unique_seq_to_set();
        assert(u.to_set().subset_of(s.to_set())) by {
            assert forall|c: (usize, usize)| u.to_set().contains(c) implies s.to_set().contains(
                c,
            ) by {
                let i = choose|i: int| 0 <= i < u.len() && u[i] == c;
                lemma_cell_at_inverse(i, width, height);
                assert(cell_in_bounds(c, width, height));
                assert(s.contains(c));
            }
        }
        vstd::set_lib::lemma_len_subset(u.to_set(), s.to_set());
        s.lemma_cardinality_of_set();
        assert(false);
    }
}

} // verus!
