//! A generic `width` by `height` arena of slots addressed by cell
//! coordinates, stored column-major; renderers use it to reuse draw
//! handles instead of respawning them.
use vstd::prelude::*;

verus! {

/// The slots of a `width` by `height` grid, column `x` before column
/// `x + 1`, stored as one flat vector.
pub struct Grid<T> {
    data: Vec<T>,
    height: usize,
    width: usize,
}

impl<T> View for Grid<T> {
    type V = Seq<T>;

    closed spec fn view(&self) -> Seq<T> {
        self.data@
    }
}

impl<T> Grid<T> {
    /// Grid width in cells.
    pub closed spec fn spec_width(&self) -> usize {
        self.width
    }

    /// Grid height in cells.
    pub closed spec fn spec_height(&self) -> usize {
        self.height
    }

    /// The flat storage holds one slot per grid cell.
    pub open spec fn wf(&self) -> bool {
        &&& self@.len() == self.spec_width() * self.spec_height()
        &&& self.spec_width() * self.spec_height() <= usize::MAX
    }
}

impl<T: Default + Clone> Grid<T> {
    /// The flat index of a cell, or `None` when it lies outside the
    /// grid.
    fn coordinates_to_index(&self, x: usize, y: usize) -> (r: Option<usize>)
        requires
            self.wf(),
        ensures
            r is Some <==> x < self.spec_width() && y < self.spec_height(),
            r is Some ==> r.unwrap() == x * self.spec_height() + y && r.unwrap() < self@.len(),
    {
        if x >= self.width || y >= self.height {
            return None;
        } else {
            proof {
                assert(x * self.height + y < self.width * self.height) by (nonlinear_arith)
                    requires
                        x < self.width,
                        y < self.height,
                ;
                assert(self.width * self.height <= usize::MAX);
            }
            let result = x * self.height + y;
            return Some(result);
        }
    }

    /// The slot of the given cell, or `None` when the cell lies outside
    /// the grid.
    pub fn at(&self, x: usize, y: usize) -> (r: Option<&T>)
        requires
            self.wf(),
        ensures
            r is Some <==> x < self.spec_width() && y < self.spec_height(),
            r is Some ==> *r.unwrap() == self@[x * self.spec_height() + y],
    {
        let index = match self.coordinates_to_index(x, y) {
            Some(i) => i,
            None => {
                return None;
            },
        };
        return Some(&self.data[index]);
    }

    /// Exclusive access to the slot of the given cell, or `None` when
    /// the cell lies outside the grid; writing through the result
    /// updates exactly that slot.
    pub fn at_mut(&mut self, x: usize, y: usize) -> (r: Option<&mut T>)
        requires
            old(self).wf(),
        ensures
            r is Some <==> x < old(self).spec_width() && y < old(self).spec_height(),
            r is None ==> *final(self) == *old(self),
            r is Some ==> *r.unwrap() == old(self)@[x * old(self).spec_height() + y] && final(self)@ == old(self)@.update(
                x * old(self).spec_height() + y,
                *final(r.unwrap()),
            ) && final(self).spec_width() == old(self).spec_width() && final(self).spec_height()
                == old(self).spec_height(),
    {
        let index = match self.coordinates_to_index(x, y) {
            Some(i) => i,
            None => {
                return None;
            },
        };
        return Some(&mut self.data[index]);
    }

    /// Read-only view of the flat storage, column-major.
    pub fn data(&self) -> (r: &Vec<T>)
        ensures
            r@ == self@,
    {
        &self.data
    }

    /// A grid of `width * height` freshly defaulted slots.
    pub fn new(width: usize, height: usize) -> (r: Grid<T>)
        requires
            width * height <= usize::MAX,
        ensures
            r.wf(),
            r.spec_width() == width,
            r.spec_height() == height,
            r@.len() == width * height,
    {
        let mut grid_vec: Vec<T> = Vec::new();
        grid_vec.resize(width * height, T::default());
        Grid { data: grid_vec, height, width }
    }
}

} // verus!
