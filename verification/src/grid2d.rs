use crate::error::Error;
use vstd::pervasive::VecAdditionalExecFns;
use vstd::prelude::*;

verus! {

broadcast use vstd::std_specs::vec::axiom_spec_len;

/// Generic dense 2D grid over a flat [`Vec`].
///
/// The elements are stored in *row major order*: the elements of each row are
/// stored sequentially, and the element at `(row, col)` lives at flat index
/// `row * cols + col`.
#[derive(Clone, Debug, PartialEq, Eq)]
pub struct Grid2d<T> {
    rows: usize,
    cols: usize,
    grid: Vec<T>,
}

impl<T> View for Grid2d<T> {
    type V = Seq<T>;

    /// A grid is viewed as its flat backing sequence, in row major order.
    closed spec fn view(&self) -> Seq<T> {
        self.grid@
    }
}

/// Pointwise clone relation between two sequences: `b` holds, position by
/// position, values that could have been produced by cloning those of `a`.
pub open spec fn seq_cloned<T: Clone>(a: Seq<T>, b: Seq<T>) -> bool {
    &&& a.len() == b.len()
    &&& forall|i: int| 0 <= i < a.len() ==> cloned(a[i], #[trigger] b[i])
}

impl<T> Grid2d<T> {
    /// The number of rows.
    pub closed spec fn nrows(&self) -> int {
        self.rows as int
    }

    /// The number of columns.
    pub closed spec fn ncols(&self) -> int {
        self.cols as int
    }

    /// The backing sequence holds exactly `rows * cols` elements.
    /// Every constructor but [`Grid2d::from_chunks`] establishes this, and
    /// every mutation preserves it.
    pub open spec fn wf(&self) -> bool {
        self@.len() == self.nrows() * self.ncols()
    }

    /// Whether `(row, col)` addresses a cell of the grid.
    pub open spec fn in_bounds(&self, row: int, col: int) -> bool {
        0 <= row < self.nrows() && 0 <= col < self.ncols()
    }

    /// The flat row-major index of the cell at `(row, col)`.
    pub open spec fn flat_of(&self, row: int, col: int) -> int {
        row * self.ncols() + col
    }

    /// The flat row-major index of the cell that a *column major* traversal
    /// reaches at step `index`: column `index / rows`, row `index % rows`.
    pub open spec fn col_order_flat_of(&self, index: int) -> int {
        self.flat_of(index % self.nrows(), index / self.nrows())
    }
}

/// For a cell at `(row, col)` of a `rows`-by-`cols` grid, the flat row-major
/// index `row * cols + col` lies inside the storage and maps back to exactly
/// that row and column: 2D coordinates and flat indices are in bijection.
pub proof fn lemma_index_coords_bijection(rows: int, cols: int, row: int, col: int)
    requires
        0 <= row < rows,
        0 <= col < cols,
    ensures
        0 <= row * cols + col < rows * cols,
        (row * cols + col) / cols == row,
        (row * cols + col) % cols == col,
{
    vstd::arithmetic::div_mod::lemma_fundamental_div_mod_converse(
        row * cols + col,
        cols,
        row,
        col,
    );
    assert(0 <= row * cols + col < rows * cols) by (nonlinear_arith)
        requires
            0 <= row < rows,
            0 <= col < cols,
    ;
}

/// The column major convention is the inverse of the row major one: a cell at
/// `(row, col)` is reached at step `col * rows + row` of a column major
/// traversal, and that step number maps back to exactly that row and column.
pub proof fn lemma_col_order_bijection(rows: int, cols: int, row: int, col: int)
    requires
        0 <= row < rows,
        0 <= col < cols,
    ensures
        0 <= col * rows + row < rows * cols,
        (col * rows + row) % rows == row,
        (col * rows + row) / rows == col,
{
    vstd::arithmetic::div_mod::lemma_fundamental_div_mod_converse(
        col * rows + row,
        rows,
        col,
        row,
    );
    assert(0 <= col * rows + row < rows * cols) by (nonlinear_arith)
        requires
            0 <= row < rows,
            0 <= col < cols,
    ;
}

/// # constructors
impl<T: Clone> Grid2d<T> {
    /// Creates a new `Grid2d` with a size of rows, cols, every cell filled
    /// with a clone of `element`.
    pub fn new(element: T, rows: usize, cols: usize) -> (r: Self)
        requires
            rows * cols <= usize::MAX,
        ensures
            r.wf(),
            r.nrows() == rows,
            r.ncols() == cols,
            forall|i: int| 0 <= i < rows * cols ==> cloned(element, #[trigger] r@[i]),
    {
        let len = rows * cols;
        let mut grid: Vec<T> = Vec::new();
        let mut i: usize = 0;
        while i < len
            invariant
                i <= len,
                grid@.len() == i,
                forall|k: int| 0 <= k < i ==> cloned(element, #[trigger] grid@[k]),
            decreases len - i,
        {
            grid.push(element.clone());
            i = i + 1;
        }
        Grid2d { rows, cols, grid }
    }

    /// Creates a new `Grid2d` from a slice of rows.
    ///
    /// All rows must have the same length; otherwise `DimensionMismatch`.
    /// An empty slice produces a 0 by 0 grid.
    pub fn from_rows(rows_v: &[Vec<T>]) -> (r: Result<Self, Error>)
        ensures
            r.is_ok() <==> (forall|i: int|
                0 <= i < rows_v@.len() ==> #[trigger] rows_v@[i]@.len() == rows_v@[0]@.len()),
            r is Err ==> r == Err::<Self, Error>(Error::DimensionMismatch),
            r matches Ok(g) ==> {
                &&& g.wf()
                &&& g.nrows() == rows_v@.len()
                &&& g.ncols() == (if rows_v@.len() == 0 { 0int } else { rows_v@[0]@.len() as int })
                &&& forall|ri: int, ci: int|
                    g.in_bounds(ri, ci) ==> cloned(
                        rows_v@[ri]@[ci],
                        #[trigger] g@[ri * g.ncols() + ci],
                    )
            },
    {
        let row_len: usize = if rows_v.len() == 0 {
            0
        } else {
            rows_v[0].len()
        };
        let mut i: usize = 0;
        while i < rows_v.len()
            invariant
                i <= rows_v@.len(),
                forall|k: int| 0 <= k < i ==> #[trigger] rows_v@[k]@.len() == row_len,
                rows_v@.len() > 0 ==> row_len == rows_v@[0]@.len(),
                rows_v@.len() == 0 ==> row_len == 0,
            decreases rows_v@.len() - i,
        {
            if rows_v[i].len() != row_len {
                return Err(Error::DimensionMismatch);
            }
            i = i + 1;
        }
        let mut grid: Vec<T> = Vec::new();
        let mut ri: usize = 0;
        while ri < rows_v.len()
            invariant
                ri <= rows_v@.len(),
                forall|k: int| 0 <= k < rows_v@.len() ==> #[trigger] rows_v@[k]@.len() == row_len,
                grid@.len() == ri * row_len,
                forall|rk: int, ck: int|
                    0 <= rk < ri && 0 <= ck < row_len ==> cloned(
                        rows_v@[rk]@[ck],
                        #[trigger] grid@[rk * (row_len as int) + ck],
                    ),
            decreases rows_v@.len() - ri,
        {
            let mut ci: usize = 0;
            while ci < row_len
                invariant
                    ri < rows_v@.len(),
                    ci <= row_len,
                    forall|k: int|
                        0 <= k < rows_v@.len() ==> #[trigger] rows_v@[k]@.len() == row_len,
                    grid@.len() == ri * row_len + ci,
                    forall|rk: int, ck: int|
                        0 <= rk < ri && 0 <= ck < row_len ==> cloned(
                            rows_v@[rk]@[ck],
                            #[trigger] grid@[rk * (row_len as int) + ck],
                        ),
                    forall|ck: int|
                        0 <= ck < ci ==> cloned(
                            rows_v@[ri as int]@[ck],
                            #[trigger] grid@[(ri as int) * (row_len as int) + ck],
                        ),
                decreases row_len - ci,
            {
                proof {
                    lemma_index_coords_bijection(
                        ri as int + 1,
                        row_len as int,
                        ri as int,
                        ci as int,
                    );
                    assert forall|rk: int, ck: int|
                        0 <= rk < ri && 0 <= ck < row_len implies 0 <= #[trigger] (rk * (row_len as int) + ck)
                        < (ri as int) * (row_len as int) by {
                        lemma_index_coords_bijection(ri as int, row_len as int, rk, ck);
                    }
                }
                grid.push(rows_v[ri][ci].clone());
                ci = ci + 1;
            }
            proof {
                assert((ri as int + 1) * (row_len as int) == (ri as int) * (row_len as int)
                    + row_len as int) by (nonlinear_arith);
            }
            ri = ri + 1;
        }
        let g = Grid2d { rows: rows_v.len(), cols: row_len, grid };
        proof {
            assert forall|ri2: int, ci2: int| g.in_bounds(ri2, ci2) implies cloned(
                rows_v@[ri2]@[ci2],
                #[trigger] g@[ri2 * g.ncols() + ci2],
            ) by {
                lemma_index_coords_bijection(g.nrows(), g.ncols(), ri2, ci2);
            }
        }
        Ok(g)
    }

    /// Creates a new `Grid2d` from a slice of columns, transposed into row
    /// major storage.
    ///
    /// All columns must have the same length; otherwise `DimensionMismatch`.
    pub fn from_cols(columns: &[Vec<T>]) -> (r: Result<Self, Error>)
        ensures
            r.is_ok() <==> (forall|i: int|
                0 <= i < columns@.len() ==> #[trigger] columns@[i]@.len() == columns@[0]@.len()),
            r is Err ==> r == Err::<Self, Error>(Error::DimensionMismatch),
            r matches Ok(g) ==> {
                &&& g.wf()
                &&& g.ncols() == columns@.len()
                &&& g.nrows() == (if columns@.len() == 0 {
                    0int
                } else {
                    columns@[0]@.len() as int
                })
                &&& forall|ri: int, ci: int|
                    g.in_bounds(ri, ci) ==> cloned(
                        columns@[ci]@[ri],
                        #[trigger] g@[ri * g.ncols() + ci],
                    )
            },
    {
        let col_len: usize = if columns.len() == 0 {
            0
        } else {
            columns[0].len()
        };
        let mut i: usize = 0;
        while i < columns.len()
            invariant
                i <= columns@.len(),
                forall|k: int| 0 <= k < i ==> #[trigger] columns@[k]@.len() == col_len,
                columns@.len() > 0 ==> col_len == columns@[0]@.len(),
                columns@.len() == 0 ==> col_len == 0,
            decreases columns@.len() - i,
        {
            if columns[i].len() != col_len {
                return Err(Error::DimensionMismatch);
            }
            i = i + 1;
        }
        let rows = col_len;
        let cols = columns.len();
        let mut grid: Vec<T> = Vec::new();
        let mut ri: usize = 0;
        while ri < rows
            invariant
                ri <= rows,
                cols == columns@.len(),
                forall|k: int| 0 <= k < columns@.len() ==> #[trigger] columns@[k]@.len() == rows,
                grid@.len() == ri * cols,
                forall|rk: int, ck: int|
                    0 <= rk < ri && 0 <= ck < cols ==> cloned(
                        columns@[ck]@[rk],
                        #[trigger] grid@[rk * (cols as int) + ck],
                    ),
            decreases rows - ri,
        {
            let mut ci: usize = 0;
            while ci < cols
                invariant
                    ri < rows,
                    ci <= cols,
                    cols == columns@.len(),
                    forall|k: int|
                        0 <= k < columns@.len() ==> #[trigger] columns@[k]@.len() == rows,
                    grid@.len() == ri * cols + ci,
                    forall|rk: int, ck: int|
                        0 <= rk < ri && 0 <= ck < cols ==> cloned(
                            columns@[ck]@[rk],
                            #[trigger] grid@[rk * (cols as int) + ck],
                        ),
                    forall|ck: int|
                        0 <= ck < ci ==> cloned(
                            columns@[ck]@[ri as int],
                            #[trigger] grid@[(ri as int) * (cols as int) + ck],
                        ),
                decreases cols - ci,
            {
                proof {
                    lemma_index_coords_bijection(ri as int + 1, cols as int, ri as int, ci as int);
                    assert forall|rk: int, ck: int|
                        0 <= rk < ri && 0 <= ck < cols implies 0 <= #[trigger] (rk * (cols as int) + ck)
                        < (ri as int) * (cols as int) by {
                        lemma_index_coords_bijection(ri as int, cols as int, rk, ck);
                    }
                }
                grid.push(columns[ci][ri].clone());
                ci = ci + 1;
            }
            proof {
                assert((ri as int + 1) * (cols as int) == (ri as int) * (cols as int)
                    + cols as int) by (nonlinear_arith);
            }
            ri = ri + 1;
        }
        let g = Grid2d { rows, cols, grid };
        proof {
            assert forall|ri2: int, ci2: int| g.in_bounds(ri2, ci2) implies cloned(
                columns@[ci2]@[ri2],
                #[trigger] g@[ri2 * g.ncols() + ci2],
            ) by {
                lemma_index_coords_bijection(g.nrows(), g.ncols(), ri2, ci2);
            }
        }
        Ok(g)
    }

    /// Creates a new `Grid2d` from the given flat slice of elements, in *row
    /// major order*.
    ///
    /// The number of elements must equal `rows * cols`; otherwise
    /// `DimensionMismatch`.
    pub fn from_row_order(elements: &[T], rows: usize, cols: usize) -> (r: Result<Self, Error>)
        requires
            rows * cols <= usize::MAX,
        ensures
            r.is_ok() <==> elements@.len() == rows * cols,
            r is Err ==> r == Err::<Self, Error>(Error::DimensionMismatch),
            r matches Ok(g) ==> {
                &&& g.wf()
                &&& g.nrows() == rows
                &&& g.ncols() == cols
                &&& seq_cloned(elements@, g@)
            },
    {
        let total_len = rows * cols;
        if total_len != elements.len() {
            return Err(Error::DimensionMismatch);
        }
        let mut grid: Vec<T> = Vec::new();
        let mut i: usize = 0;
        while i < elements.len()
            invariant
                i <= elements@.len(),
                grid@.len() == i,
                forall|k: int| 0 <= k < i ==> cloned(elements@[k], #[trigger] grid@[k]),
            decreases elements@.len() - i,
        {
            grid.push(elements[i].clone());
            i = i + 1;
        }
        Ok(Grid2d { rows, cols, grid })
    }

    /// Creates a new `Grid2d` from the given flat slice of elements, in
    /// *column major order*, reordered into row major storage.
    ///
    /// The number of elements must equal `rows * cols`; otherwise
    /// `DimensionMismatch`.
    pub fn from_col_order(elements: &[T], rows: usize, cols: usize) -> (r: Result<Self, Error>)
        requires
            rows * cols <= usize::MAX,
        ensures
            r.is_ok() <==> elements@.len() == rows * cols,
            r is Err ==> r == Err::<Self, Error>(Error::DimensionMismatch),
            r matches Ok(g) ==> {
                &&& g.wf()
                &&& g.nrows() == rows
                &&& g.ncols() == cols
                &&& forall|ri: int, ci: int|
                    g.in_bounds(ri, ci) ==> cloned(
                        elements@[ci * (rows as int) + ri],
                        #[trigger] g@[ri * (cols as int) + ci],
                    )
            },
    {
        let total_len = rows * cols;
        if total_len != elements.len() {
            return Err(Error::DimensionMismatch);
        }
        let mut grid: Vec<T> = Vec::new();
        let mut ri: usize = 0;
        while ri < rows
            invariant
                ri <= rows,
                rows * cols <= usize::MAX,
                elements@.len() == rows * cols,
                grid@.len() == ri * cols,
                forall|rk: int, ck: int|
                    0 <= rk < ri && 0 <= ck < cols ==> cloned(
                        elements@[ck * (rows as int) + rk],
                        #[trigger] grid@[rk * (cols as int) + ck],
                    ),
            decreases rows - ri,
        {
            let mut ci: usize = 0;
            while ci < cols
                invariant
                    ri < rows,
                    ci <= cols,
                    rows * cols <= usize::MAX,
                    elements@.len() == rows * cols,
                    grid@.len() == ri * cols + ci,
                    forall|rk: int, ck: int|
                        0 <= rk < ri && 0 <= ck < cols ==> cloned(
                            elements@[ck * (rows as int) + rk],
                            #[trigger] grid@[rk * (cols as int) + ck],
                        ),
                    forall|ck: int|
                        0 <= ck < ci ==> cloned(
                            elements@[ck * (rows as int) + ri as int],
                            #[trigger] grid@[(ri as int) * (cols as int) + ck],
                        ),
                decreases cols - ci,
            {
                proof {
                    lemma_index_coords_bijection(ri as int + 1, cols as int, ri as int, ci as int);
                    lemma_col_order_bijection(rows as int, cols as int, ri as int, ci as int);
                    assert forall|rk: int, ck: int|
                        0 <= rk < ri && 0 <= ck < cols implies 0 <= #[trigger] (rk * (cols as int) + ck)
                        < (ri as int) * (cols as int) by {
                        lemma_index_coords_bijection(ri as int, cols as int, rk, ck);
                    }
                }
                let index = ci * rows + ri;
                grid.push(elements[index].clone());
                ci = ci + 1;
            }
            proof {
                assert((ri as int + 1) * (cols as int) == (ri as int) * (cols as int)
                    + cols as int) by (nonlinear_arith);
            }
            ri = ri + 1;
        }
        Ok(Grid2d { rows, cols, grid })
    }

    /// Creates a new `Grid2d` whose cells hold, in *row major order*, elements
    /// cloned from the first `rows * cols` entries of `elements`.
    ///
    /// Fails with `NotEnoughElements` if `elements` holds fewer than
    /// `rows * cols` entries; entries beyond `rows * cols` are ignored.
    pub fn from_iter_row_order(elements: &[T], rows: usize, cols: usize) -> (r: Result<
        Self,
        Error,
    >)
        requires
            rows * cols <= usize::MAX,
        ensures
            r.is_ok() <==> elements@.len() >= rows * cols,
            r is Err ==> r == Err::<Self, Error>(Error::NotEnoughElements),
            r matches Ok(g) ==> {
                &&& g.wf()
                &&& g.nrows() == rows
                &&& g.ncols() == cols
                &&& seq_cloned(elements@.subrange(0, rows * cols), g@)
            },
    {
        let len = rows * cols;
        if elements.len() < len {
            return Err(Error::NotEnoughElements);
        }
        let mut grid: Vec<T> = Vec::new();
        let mut i: usize = 0;
        while i < len
            invariant
                i <= len,
                len <= elements@.len(),
                grid@.len() == i,
                forall|k: int| 0 <= k < i ==> cloned(elements@[k], #[trigger] grid@[k]),
            decreases len - i,
        {
            grid.push(elements[i].clone());
            i = i + 1;
        }
        Ok(Grid2d { rows, cols, grid })
    }

    /// Creates a new `Grid2d` whose cells hold, in *column major order*,
    /// elements cloned from the first `rows * cols` entries of `elements`.
    ///
    /// Fails with `NotEnoughElements` if `elements` holds fewer than
    /// `rows * cols` entries; entries beyond `rows * cols` are ignored.
    pub fn from_iter_col_order(elements: &[T], rows: usize, cols: usize) -> (r: Result<
        Self,
        Error,
    >)
        requires
            rows * cols <= usize::MAX,
        ensures
            r.is_ok() <==> elements@.len() >= rows * cols,
            r is Err ==> r == Err::<Self, Error>(Error::NotEnoughElements),
            r matches Ok(g) ==> {
                &&& g.wf()
                &&& g.nrows() == rows
                &&& g.ncols() == cols
                &&& forall|ri: int, ci: int|
                    g.in_bounds(ri, ci) ==> cloned(
                        elements@[ci * (rows as int) + ri],
                        #[trigger] g@[ri * (cols as int) + ci],
                    )
            },
    {
        let len = rows * cols;
        if elements.len() < len {
            return Err(Error::NotEnoughElements);
        }
        match Self::from_col_order_prefix(elements, rows, cols) {
            Ok(g) => Ok(g),
            Err(_) => Err(Error::NotEnoughElements),
        }
    }

    /// Builds a grid from the first `rows * cols` entries of `elements` taken
    /// in *column major order*.  Shared by the column order constructors.
    fn from_col_order_prefix(elements: &[T], rows: usize, cols: usize) -> (r: Result<Self, Error>)
        requires
            rows * cols <= usize::MAX,
        ensures
            r.is_ok() <==> elements@.len() >= rows * cols,
            r is Err ==> r == Err::<Self, Error>(Error::DimensionMismatch),
            r matches Ok(g) ==> {
                &&& g.wf()
                &&& g.nrows() == rows
                &&& g.ncols() == cols
                &&& forall|ri: int, ci: int|
                    g.in_bounds(ri, ci) ==> cloned(
                        elements@[ci * (rows as int) + ri],
                        #[trigger] g@[ri * (cols as int) + ci],
                    )
            },
    {
        let total_len = rows * cols;
        if elements.len() < total_len {
            return Err(Error::DimensionMismatch);
        }
        let mut grid: Vec<T> = Vec::new();
        let mut ri: usize = 0;
        while ri < rows
            invariant
                ri <= rows,
                rows * cols <= usize::MAX,
                elements@.len() >= rows * cols,
                grid@.len() == ri * cols,
                forall|rk: int, ck: int|
                    0 <= rk < ri && 0 <= ck < cols ==> cloned(
                        elements@[ck * (rows as int) + rk],
                        #[trigger] grid@[rk * (cols as int) + ck],
                    ),
            decreases rows - ri,
        {
            let mut ci: usize = 0;
            while ci < cols
                invariant
                    ri < rows,
                    ci <= cols,
                    rows * cols <= usize::MAX,
                    elements@.len() >= rows * cols,
                    grid@.len() == ri * cols + ci,
                    forall|rk: int, ck: int|
                        0 <= rk < ri && 0 <= ck < cols ==> cloned(
                            elements@[ck * (rows as int) + rk],
                            #[trigger] grid@[rk * (cols as int) + ck],
                        ),
                    forall|ck: int|
                        0 <= ck < ci ==> cloned(
                            elements@[ck * (rows as int) + ri as int],
                            #[trigger] grid@[(ri as int) * (cols as int) + ck],
                        ),
                decreases cols - ci,
            {
                proof {
                    lemma_index_coords_bijection(ri as int + 1, cols as int, ri as int, ci as int);
                    lemma_col_order_bijection(rows as int, cols as int, ri as int, ci as int);
                    assert forall|rk: int, ck: int|
                        0 <= rk < ri && 0 <= ck < cols implies 0 <= #[trigger] (rk * (cols as int)
                        + ck) < (ri as int) * (cols as int) by {
                        lemma_index_coords_bijection(ri as int, cols as int, rk, ck);
                    }
                }
                let index = ci * rows + ri;
                grid.push(elements[index].clone());
                ci = ci + 1;
            }
            proof {
                assert((ri as int + 1) * (cols as int) == (ri as int) * (cols as int)
                    + cols as int) by (nonlinear_arith);
            }
            ri = ri + 1;
        }
        Ok(Grid2d { rows, cols, grid })
    }

    /// Creates a new `Grid2d` filling each cell with the result of the given
    /// function, called once per cell with the cell's position in *row major
    /// order* (0 up to `rows * cols`).
    pub fn from_fn_row_order<F: Fn(usize) -> T>(function: F, rows: usize, cols: usize) -> (r: Self)
        requires
            rows * cols <= usize::MAX,
            forall|k: usize| 0 <= k < rows * cols ==> #[trigger] function.requires((k,)),
        ensures
            r.wf(),
            r.nrows() == rows,
            r.ncols() == cols,
            forall|k: int|
                0 <= k < rows * cols ==> call_ensures(function, ((k as usize),), #[trigger] r@[k]),
    {
        let len = rows * cols;
        let mut grid: Vec<T> = Vec::new();
        let mut i: usize = 0;
        while i < len
            invariant
                i <= len,
                len == rows * cols,
                grid@.len() == i,
                forall|k: usize| 0 <= k < len ==> #[trigger] function.requires((k,)),
                forall|k: int|
                    0 <= k < i ==> call_ensures(function, ((k as usize),), #[trigger] grid@[k]),
            decreases len - i,
        {
            let element = function(i);
            grid.push(element);
            i = i + 1;
        }
        Grid2d { rows, cols, grid }
    }

    /// Creates a new `Grid2d` filling each cell with the result of the given
    /// function, called once per cell with the cell's position in *column
    /// major order*: the cell at `(row, col)` receives the result for
    /// position `col * rows + row`.
    pub fn from_fn_col_order<F: Fn(usize) -> T>(function: F, rows: usize, cols: usize) -> (r: Self)
        requires
            rows * cols <= usize::MAX,
            forall|k: usize| 0 <= k < rows * cols ==> #[trigger] function.requires((k,)),
        ensures
            r.wf(),
            r.nrows() == rows,
            r.ncols() == cols,
            forall|ri: int, ci: int|
                r.in_bounds(ri, ci) ==> call_ensures(
                    function,
                    (((ci * (rows as int) + ri) as usize),),
                    #[trigger] r@[ri * (cols as int) + ci],
                ),
    {
        let mut grid: Vec<T> = Vec::new();
        let mut ri: usize = 0;
        while ri < rows
            invariant
                ri <= rows,
                rows * cols <= usize::MAX,
                grid@.len() == ri * cols,
                forall|k: usize| 0 <= k < rows * cols ==> #[trigger] function.requires((k,)),
                forall|rk: int, ck: int|
                    0 <= rk < ri && 0 <= ck < cols ==> call_ensures(
                        function,
                        (((ck * (rows as int) + rk) as usize),),
                        #[trigger] grid@[rk * (cols as int) + ck],
                    ),
            decreases rows - ri,
        {
            let mut ci: usize = 0;
            while ci < cols
                invariant
                    ri < rows,
                    ci <= cols,
                    rows * cols <= usize::MAX,
                    grid@.len() == ri * cols + ci,
                    forall|k: usize| 0 <= k < rows * cols ==> #[trigger] function.requires((k,)),
                    forall|rk: int, ck: int|
                        0 <= rk < ri && 0 <= ck < cols ==> call_ensures(
                            function,
                            (((ck * (rows as int) + rk) as usize),),
                            #[trigger] grid@[rk * (cols as int) + ck],
                        ),
                    forall|ck: int|
                        0 <= ck < ci ==> call_ensures(
                            function,
                            (((ck * (rows as int) + ri as int) as usize),),
                            #[trigger] grid@[(ri as int) * (cols as int) + ck],
                        ),
                decreases cols - ci,
            {
                proof {
                    lemma_index_coords_bijection(ri as int + 1, cols as int, ri as int, ci as int);
                    lemma_col_order_bijection(rows as int, cols as int, ri as int, ci as int);
                    assert forall|rk: int, ck: int|
                        0 <= rk < ri && 0 <= ck < cols implies 0 <= #[trigger] (rk * (cols as int)
                        + ck) < (ri as int) * (cols as int) by {
                        lemma_index_coords_bijection(ri as int, cols as int, rk, ck);
                    }
                }
                let index = ci * rows + ri;
                let element = function(index);
                grid.push(element);
                ci = ci + 1;
            }
            proof {
                assert((ri as int + 1) * (cols as int) == (ri as int) * (cols as int)
                    + cols as int) by (nonlinear_arith);
            }
            ri = ri + 1;
        }
        Grid2d { rows, cols, grid }
    }
}

/// # constructors (Copy)
impl<T: Copy> Grid2d<T> {
    /// Creates a new `Grid2d` by concatenating `rows * cols` copies of
    /// `chunk` end to end, with a total storage length of
    /// `chunk.len() * rows * cols`.
    ///
    /// The storage holds `rows * cols` *chunks*, so for a chunk of length
    /// other than 1 the element-count invariant `wf` does not hold; the
    /// chunked accessors address such a grid.
    pub fn from_chunks(chunk: &[T], rows: usize, cols: usize) -> (r: Self)
        requires
            rows * cols <= usize::MAX,
            chunk@.len() * (rows * cols) <= usize::MAX,
        ensures
            r.nrows() == rows,
            r.ncols() == cols,
            r@.len() == chunk@.len() * (rows * cols),
            forall|k: int|
                0 <= k < r@.len() ==> #[trigger] r@[k] == chunk@[k % (chunk@.len() as int)],
    {
        let reps = rows * cols;
        let chunk_len = chunk.len();
        proof {
            assert((reps as int) * (chunk_len as int) == chunk@.len() * (reps as int))
                by (nonlinear_arith)
                requires
                    chunk_len == chunk@.len(),
            ;
        }
        let mut grid: Vec<T> = Vec::new();
        let mut i: usize = 0;
        while i < reps
            invariant
                i <= reps,
                chunk_len == chunk@.len(),
                (reps as int) * (chunk_len as int) <= usize::MAX,
                grid@.len() == i * chunk_len,
                forall|k: int|
                    0 <= k < grid@.len() ==> #[trigger] grid@[k] == chunk@[k % (
                    chunk@.len() as int)],
            decreases reps - i,
        {
            proof {
                assert((i as int + 1) * (chunk_len as int) <= (reps as int) * (chunk_len as int)
                    && (i as int + 1) * (chunk_len as int) == (i as int) * (chunk_len as int)
                    + chunk_len as int) by (nonlinear_arith)
                    requires
                        0 <= i < reps,
                        0 <= chunk_len,
                ;
            }
            let mut j: usize = 0;
            while j < chunk_len
                invariant
                    i < reps,
                    j <= chunk_len,
                    chunk_len == chunk@.len(),
                    (i as int) * (chunk_len as int) + chunk_len <= (reps as int) * (
                    chunk_len as int) <= usize::MAX,
                    grid@.len() == i * chunk_len + j,
                    forall|k: int|
                        0 <= k < grid@.len() ==> #[trigger] grid@[k] == chunk@[k % (
                        chunk@.len() as int)],
                decreases chunk_len - j,
            {
                proof {
                    vstd::arithmetic::div_mod::lemma_fundamental_div_mod_converse(
                        (i as int) * (chunk_len as int) + j,
                        chunk_len as int,
                        i as int,
                        j as int,
                    );
                }
                grid.push(chunk[j]);
                j = j + 1;
            }
            i = i + 1;
        }
        proof {
            assert((reps as int) * (chunk_len as int) == chunk@.len() * (reps as int))
                by (nonlinear_arith)
                requires
                    chunk_len == chunk@.len(),
            ;
        }
        Grid2d { rows, cols, grid }
    }
}

/// # general query methods
impl<T> Grid2d<T> {
    /// Returns the capacity of the grid (`rows` times `cols`).
    pub fn capacity(&self) -> (r: usize)
        requires
            self.wf(),
        ensures
            r == self.nrows() * self.ncols(),
    {
        proof {
            assert(self.grid.len() == self@.len());
        }
        self.rows * self.cols
    }

    /// Returns the number of rows.
    pub fn num_rows(&self) -> (r: usize)
        ensures
            r == self.nrows(),
    {
        self.rows
    }

    /// Returns the number of columns.
    pub fn num_cols(&self) -> (r: usize)
        ensures
            r == self.ncols(),
    {
        self.cols
    }

    /// Returns the length of a row (same as `num_cols`).
    pub fn row_len(&self) -> (r: usize)
        ensures
            r == self.ncols(),
    {
        self.cols
    }

    /// Returns the length of a column (same as `num_rows`).
    pub fn col_len(&self) -> (r: usize)
        ensures
            r == self.nrows(),
    {
        self.rows
    }

    /// Translates 2D `row`, `col` coordinates into a flat row-major index.
    pub fn get_index(&self, row: usize, col: usize) -> (r: Result<usize, Error>)
        requires
            self.wf(),
        ensures
            self.in_bounds(row as int, col as int) ==> (r matches Ok(i) && i == self.flat_of(
                row as int,
                col as int,
            ) && i < self.nrows() * self.ncols()),
            !self.in_bounds(row as int, col as int) ==> r == Err::<usize, Error>(
                Error::IndicesOutOfBounds(row, col),
            ),
    {
        if row < self.rows && col < self.cols {
            proof {
                lemma_index_coords_bijection(self.nrows(), self.ncols(), row as int, col as int);
                assert(self.grid.len() == self@.len());
            }
            Ok(row * self.cols + col)
        } else {
            Err(Error::IndicesOutOfBounds(row, col))
        }
    }

    /// Translates 2D `row`, `col` coordinates into a flat row-major index,
    /// without a bounds check: the caller guarantees the bounds.
    pub fn get_index_unchecked(&self, row: usize, col: usize) -> (r: usize)
        requires
            self.wf(),
            self.in_bounds(row as int, col as int),
        ensures
            r == self.flat_of(row as int, col as int),
            r < self.nrows() * self.ncols(),
    {
        proof {
            lemma_index_coords_bijection(self.nrows(), self.ncols(), row as int, col as int);
            assert(self.grid.len() == self@.len());
        }
        row * self.cols + col
    }

    /// Translates a flat row-major index into 2D `row`, `col` coordinates.
    pub fn get_coords(&self, index: usize) -> (r: Result<(usize, usize), Error>)
        requires
            self.wf(),
        ensures
            index < self.nrows() * self.ncols() ==> (r matches Ok(rc) && rc.0 == index as int
                / self.ncols() && rc.1 == index as int % self.ncols()),
            !(index < self.nrows() * self.ncols()) ==> r == Err::<(usize, usize), Error>(
                Error::IndexOutOfBounds(index),
            ),
    {
        if index < self.capacity() {
            proof {
                lemma_positive_capacity_has_cols(self.nrows(), self.ncols(), index as int);
            }
            Ok((index / self.cols, index % self.cols))
        } else {
            Err(Error::IndexOutOfBounds(index))
        }
    }

    /// Translates a flat row-major index into 2D `row`, `col` coordinates,
    /// without a bounds check: the caller guarantees the bounds.
    pub fn get_coords_unchecked(&self, index: usize) -> (r: (usize, usize))
        requires
            self.wf(),
            index < self.nrows() * self.ncols(),
        ensures
            r.0 == index as int / self.ncols(),
            r.1 == index as int % self.ncols(),
    {
        proof {
            lemma_positive_capacity_has_cols(self.nrows(), self.ncols(), index as int);
        }
        (index / self.cols, index % self.cols)
    }

    /// Returns the number of chunks of length `chunk_len` that fit in the
    /// whole grid (`capacity() / chunk_len`).
    pub fn chunked_capacity(&self, chunk_len: usize) -> (r: usize)
        requires
            self.wf(),
            chunk_len >= 1,
        ensures
            r == self.nrows() * self.ncols() / chunk_len as int,
    {
        self.capacity() / chunk_len
    }

    /// Returns the number of chunks of length `chunk_len` per row.
    pub fn chunks_per_row(&self, chunk_len: usize) -> (r: usize)
        requires
            chunk_len >= 1,
        ensures
            r == self.ncols() / chunk_len as int,
    {
        self.cols / chunk_len
    }

    /// Translates chunk coordinates (`row`, chunk column `col`) into the flat
    /// row-major index of the chunk's first element.
    ///
    /// The grid's columns are assumed to be an exact multiple of `chunk_len`;
    /// only full chunks are addressable.  When `cols` is not a multiple of
    /// `chunk_len`, the last addressable chunk of a row may reach into the
    /// storage of the next row: this arithmetic is deliberate, and the caller
    /// is responsible for the division to be exact.
    pub fn get_chunk_index(&self, chunk_len: usize, row: usize, col: usize) -> (r: Result<
        usize,
        Error,
    >)
        requires
            self.wf(),
            chunk_len >= 1,
        ensures
            (row < self.nrows() && col < self.ncols() / chunk_len as int) ==> (r matches Ok(i)
                && i == row * self.ncols() + col * chunk_len && i + chunk_len <= self.nrows()
                * self.ncols()),
            !(row < self.nrows() && col < self.ncols() / chunk_len as int) ==> r == Err::<
                usize,
                Error,
            >(Error::ChunkIndicesOutOfBounds(row, col, chunk_len)),
    {
        if row < self.rows && col < (self.cols / chunk_len) {
            proof {
                lemma_chunk_index_bound(
                    self.nrows(),
                    self.ncols(),
                    chunk_len as int,
                    row as int,
                    col as int,
                );
                assert(self.grid.len() == self@.len());
            }
            Ok(row * self.cols + col * chunk_len)
        } else {
            Err(Error::ChunkIndicesOutOfBounds(row, col, chunk_len))
        }
    }

    /// Translates chunk coordinates into the flat row-major index of the
    /// chunk's first element, without a bounds check: the caller guarantees
    /// the bounds.
    pub fn get_chunk_index_unchecked(&self, chunk_len: usize, row: usize, col: usize) -> (r: usize)
        requires
            self.wf(),
            chunk_len >= 1,
            row < self.nrows(),
            col < self.ncols() / chunk_len as int,
        ensures
            r == row * self.ncols() + col * chunk_len,
            r + chunk_len <= self.nrows() * self.ncols(),
    {
        proof {
            lemma_chunk_index_bound(
                self.nrows(),
                self.ncols(),
                chunk_len as int,
                row as int,
                col as int,
            );
            assert(self.grid.len() == self@.len());
        }
        row * self.cols + col * chunk_len
    }
}

/// A flat index below `rows * cols` means the grid has at least one column.
proof fn lemma_positive_capacity_has_cols(rows: int, cols: int, index: int)
    requires
        0 <= index < rows * cols,
        0 <= cols,
    ensures
        cols > 0,
{
    if cols == 0 {
        assert(rows * cols == 0) by (nonlinear_arith)
            requires
                cols == 0,
        ;
    }
}

/// A full chunk at valid chunk coordinates lies inside the storage: its first
/// element's index `row * cols + col * chunk_len` is at least `chunk_len`
/// short of `rows * cols`.
proof fn lemma_chunk_index_bound(rows: int, cols: int, chunk_len: int, row: int, col: int)
    requires
        0 <= row < rows,
        1 <= chunk_len,
        0 <= col < cols / chunk_len,
    ensures
        0 <= row * cols + col * chunk_len,
        row * cols + col * chunk_len + chunk_len <= rows * cols,
{
    assert(col * chunk_len + chunk_len <= cols) by (nonlinear_arith)
        requires
            1 <= chunk_len,
            0 <= col < cols / chunk_len,
    ;
    assert(row * cols + cols <= rows * cols && 0 <= row * cols && 0 <= col * chunk_len)
        by (nonlinear_arith)
        requires
            0 <= row < rows,
            0 <= col,
            0 <= chunk_len,
            col * chunk_len + chunk_len <= cols,
    ;
}

/// A flat column-major step number below `rows * cols` addresses a valid
/// cell: row `index % rows`, column `index / rows`.
proof fn lemma_col_order_step_in_bounds(rows: int, cols: int, index: int)
    requires
        0 <= index < rows * cols,
        0 <= rows,
        0 <= cols,
    ensures
        rows > 0,
        0 <= index % rows < rows,
        0 <= index / rows < cols,
        0 <= (index % rows) * cols + index / rows < rows * cols,
{
    if rows == 0 {
        assert(rows * cols == 0) by (nonlinear_arith)
            requires
                rows == 0,
        ;
    }
    vstd::arithmetic::div_mod::lemma_fundamental_div_mod(index, rows);
    assert(0 <= index / rows < cols) by (nonlinear_arith)
        requires
            0 <= index < rows * cols,
            rows > 0,
            index == rows * (index / rows) + (index % rows),
            0 <= index % rows < rows,
    ;
    lemma_index_coords_bijection(rows, cols, index % rows, index / rows);
}

/// # single element reference get methods
impl<T> Grid2d<T> {
    /// Returns a reference to the element at the given `row` and `col`umn.
    pub fn get_ref(&self, row: usize, col: usize) -> (r: Result<&T, Error>)
        requires
            self.wf(),
        ensures
            self.in_bounds(row as int, col as int) ==> (r matches Ok(p) && *p == self@[self.flat_of(
                row as int,
                col as int,
            )]),
            !self.in_bounds(row as int, col as int) ==> r == Err::<&T, Error>(
                Error::IndicesOutOfBounds(row, col),
            ),
    {
        match self.get_index(row, col) {
            Ok(index) => Ok(&self.grid[index]),
            Err(e) => Err(e),
        }
    }

    /// Returns a reference to the element at the given `row` and `col`umn,
    /// without a bounds check: the caller guarantees the bounds.
    pub fn get_ref_unchecked(&self, row: usize, col: usize) -> (r: &T)
        requires
            self.wf(),
            self.in_bounds(row as int, col as int),
        ensures
            *r == self@[self.flat_of(row as int, col as int)],
    {
        let index = self.get_index_unchecked(row, col);
        &self.grid[index]
    }

    /// Returns a reference to the element at the given flat index, in *row
    /// major order*.
    pub fn get_ref_row_order(&self, index: usize) -> (r: Result<&T, Error>)
        requires
            self.wf(),
        ensures
            index < self@.len() ==> (r matches Ok(p) && *p == self@[index as int]),
            !(index < self@.len()) ==> r == Err::<&T, Error>(Error::IndexOutOfBounds(index)),
    {
        if index < self.capacity() {
            Ok(&self.grid[index])
        } else {
            Err(Error::IndexOutOfBounds(index))
        }
    }

    /// Returns a reference to the element at the given flat index, in *row
    /// major order*, without a bounds check: the caller guarantees the bounds.
    pub fn get_ref_row_order_unchecked(&self, index: usize) -> (r: &T)
        requires
            self.wf(),
            index < self@.len(),
        ensures
            *r == self@[index as int],
    {
        &self.grid[index]
    }

    /// Returns a reference to the element at the given step of a *column
    /// major* traversal.
    pub fn get_ref_col_order(&self, index: usize) -> (r: Result<&T, Error>)
        requires
            self.wf(),
        ensures
            index < self@.len() ==> (r matches Ok(p) && *p == self@[self.col_order_flat_of(
                index as int,
            )]),
            !(index < self@.len()) ==> r == Err::<&T, Error>(Error::IndexOutOfBounds(index)),
    {
        if index < self.capacity() {
            Ok(self.get_ref_col_order_unchecked(index))
        } else {
            Err(Error::IndexOutOfBounds(index))
        }
    }

    /// Returns a reference to the element at the given step of a *column
    /// major* traversal, without a bounds check: the caller guarantees the
    /// bounds.
    pub fn get_ref_col_order_unchecked(&self, index: usize) -> (r: &T)
        requires
            self.wf(),
            index < self@.len(),
        ensures
            *r == self@[self.col_order_flat_of(index as int)],
    {
        proof {
            lemma_col_order_step_in_bounds(self.nrows(), self.ncols(), index as int);
        }
        let col = index / self.rows;
        let row = index % self.rows;
        self.get_ref_unchecked(row, col)
    }
}

/// # single element mutable reference get methods
impl<T> Grid2d<T> {
    /// Returns a mutable reference to the element at the given `row` and
    /// `col`umn.
    pub fn get_ref_mut(&mut self, row: usize, col: usize) -> (r: Result<&mut T, Error>)
        requires
            old(self).wf(),
        ensures
            old(self).in_bounds(row as int, col as int) ==> {
                &&& r.is_ok()
                &&& *r.unwrap() == old(self)@[old(self).flat_of(row as int, col as int)]
                &&& final(self)@ == old(self)@.update(
                    old(self).flat_of(row as int, col as int),
                    *final(r.unwrap()),
                )
                &&& final(self).nrows() == old(self).nrows()
                &&& final(self).ncols() == old(self).ncols()
            },
            !old(self).in_bounds(row as int, col as int) ==> r == Err::<&mut T, Error>(
                Error::IndicesOutOfBounds(row, col),
            ) && *final(self) == *old(self),
    {
        match self.get_index(row, col) {
            Ok(index) => Ok(&mut self.grid[index]),
            Err(e) => Err(e),
        }
    }

    /// Returns a mutable reference to the element at the given `row` and
    /// `col`umn, without a bounds check: the caller guarantees the bounds.
    pub fn get_ref_mut_unchecked(&mut self, row: usize, col: usize) -> (r: &mut T)
        requires
            old(self).wf(),
            old(self).in_bounds(row as int, col as int),
        ensures
            *r == old(self)@[old(self).flat_of(row as int, col as int)],
            final(self)@ == old(self)@.update(
                old(self).flat_of(row as int, col as int),
                *final(r),
            ),
            final(self).nrows() == old(self).nrows(),
            final(self).ncols() == old(self).ncols(),
    {
        let index = self.get_index_unchecked(row, col);
        &mut self.grid[index]
    }

    /// Returns a mutable reference to the element at the given flat index, in
    /// *row major order*.
    pub fn get_ref_mut_row_order(&mut self, index: usize) -> (r: Result<&mut T, Error>)
        requires
            old(self).wf(),
        ensures
            index < old(self)@.len() ==> {
                &&& r.is_ok()
                &&& *r.unwrap() == old(self)@[index as int]
                &&& final(self)@ == old(self)@.update(index as int, *final(r.unwrap()))
                &&& final(self).nrows() == old(self).nrows()
                &&& final(self).ncols() == old(self).ncols()
            },
            !(index < old(self)@.len()) ==> r == Err::<&mut T, Error>(
                Error::IndexOutOfBounds(index),
            ) && *final(self) == *old(self),
    {
        if index < self.capacity() {
            Ok(&mut self.grid[index])
        } else {
            Err(Error::IndexOutOfBounds(index))
        }
    }

    /// Returns a mutable reference to the element at the given flat index, in
    /// *row major order*, without a bounds check: the caller guarantees the
    /// bounds.
    pub fn get_ref_mut_row_order_unchecked(&mut self, index: usize) -> (r: &mut T)
        requires
            old(self).wf(),
            index < old(self)@.len(),
        ensures
            *r == old(self)@[index as int],
            final(self)@ == old(self)@.update(index as int, *final(r)),
            final(self).nrows() == old(self).nrows(),
            final(self).ncols() == old(self).ncols(),
    {
        &mut self.grid[index]
    }

    /// Returns a mutable reference to the element at the given step of a
    /// *column major* traversal.
    pub fn get_ref_mut_col_order(&mut self, index: usize) -> (r: Result<&mut T, Error>)
        requires
            old(self).wf(),
        ensures
            index < old(self)@.len() ==> {
                &&& r.is_ok()
                &&& *r.unwrap() == old(self)@[old(self).col_order_flat_of(index as int)]
                &&& final(self)@ == old(self)@.update(
                    old(self).col_order_flat_of(index as int),
                    *final(r.unwrap()),
                )
                &&& final(self).nrows() == old(self).nrows()
                &&& final(self).ncols() == old(self).ncols()
            },
            !(index < old(self)@.len()) ==> r == Err::<&mut T, Error>(
                Error::IndexOutOfBounds(index),
            ) && *final(self) == *old(self),
    {
        if index < self.capacity() {
            Ok(self.get_ref_mut_col_order_unchecked(index))
        } else {
            Err(Error::IndexOutOfBounds(index))
        }
    }

    /// Returns a mutable reference to the element at the given step of a
    /// *column major* traversal, without a bounds check: the caller
    /// guarantees the bounds.
    pub fn get_ref_mut_col_order_unchecked(&mut self, index: usize) -> (r: &mut T)
        requires
            old(self).wf(),
            index < old(self)@.len(),
        ensures
            *r == old(self)@[old(self).col_order_flat_of(index as int)],
            final(self)@ == old(self)@.update(
                old(self).col_order_flat_of(index as int),
                *final(r),
            ),
            final(self).nrows() == old(self).nrows(),
            final(self).ncols() == old(self).ncols(),
    {
        proof {
            lemma_col_order_step_in_bounds(self.nrows(), self.ncols(), index as int);
        }
        let col = index / self.rows;
        let row = index % self.rows;
        self.get_ref_mut_unchecked(row, col)
    }
}

/// # single element set methods
impl<T> Grid2d<T> {
    /// Sets the element at the given `row` and `col`umn.
    pub fn set(&mut self, element: T, row: usize, col: usize) -> (r: Result<(), Error>)
        requires
            old(self).wf(),
        ensures
            old(self).in_bounds(row as int, col as int) ==> r == Ok::<(), Error>(()) && final(self)@ == old(self)@.update(old(self).flat_of(row as int, col as int), element),
            !old(self).in_bounds(row as int, col as int) ==> r == Err::<(), Error>(
                Error::IndicesOutOfBounds(row, col),
            ) && final(self)@ == old(self)@,
            final(self).nrows() == old(self).nrows(),
            final(self).ncols() == old(self).ncols(),
            final(self).wf(),
    {
        match self.get_index(row, col) {
            Ok(index) => {
                self.grid.set(index, element);
                Ok(())
            },
            Err(e) => Err(e),
        }
    }

    /// Sets the element at the given `row` and `col`umn, without a bounds
    /// check: the caller guarantees the bounds.
    pub fn set_unchecked(&mut self, element: T, row: usize, col: usize)
        requires
            old(self).wf(),
            old(self).in_bounds(row as int, col as int),
        ensures
            final(self)@ == old(self)@.update(
                old(self).flat_of(row as int, col as int),
                element,
            ),
            final(self).nrows() == old(self).nrows(),
            final(self).ncols() == old(self).ncols(),
            final(self).wf(),
    {
        let index = self.get_index_unchecked(row, col);
        self.grid.set(index, element);
    }

    /// Sets the element at the given flat index, in *row major order*.
    pub fn set_row_order(&mut self, element: T, index: usize) -> (r: Result<(), Error>)
        requires
            old(self).wf(),
        ensures
            index < old(self)@.len() ==> r == Ok::<(), Error>(()) && final(self)@ == old(self)@.update(index as int, element),
            !(index < old(self)@.len()) ==> r == Err::<(), Error>(Error::IndexOutOfBounds(index))
                && final(self)@ == old(self)@,
            final(self).nrows() == old(self).nrows(),
            final(self).ncols() == old(self).ncols(),
            final(self).wf(),
    {
        if index < self.capacity() {
            self.grid.set(index, element);
            Ok(())
        } else {
            Err(Error::IndexOutOfBounds(index))
        }
    }

    /// Sets the element at the given flat index, in *row major order*,
    /// without a bounds check: the caller guarantees the bounds.
    pub fn set_row_order_unchecked(&mut self, element: T, index: usize)
        requires
            old(self).wf(),
            index < old(self)@.len(),
        ensures
            final(self)@ == old(self)@.update(index as int, element),
            final(self).nrows() == old(self).nrows(),
            final(self).ncols() == old(self).ncols(),
            final(self).wf(),
    {
        self.grid.set(index, element);
    }

    /// Sets the element at the given step of a *column major* traversal.
    pub fn set_col_order(&mut self, element: T, index: usize) -> (r: Result<(), Error>)
        requires
            old(self).wf(),
        ensures
            index < old(self)@.len() ==> r == Ok::<(), Error>(()) && final(self)@ == old(self)@.update(old(self).col_order_flat_of(index as int), element),
            !(index < old(self)@.len()) ==> r == Err::<(), Error>(Error::IndexOutOfBounds(index))
                && final(self)@ == old(self)@,
            final(self).nrows() == old(self).nrows(),
            final(self).ncols() == old(self).ncols(),
            final(self).wf(),
    {
        if index < self.capacity() {
            self.set_col_order_unchecked(element, index);
            Ok(())
        } else {
            Err(Error::IndexOutOfBounds(index))
        }
    }

    /// Sets the element at the given step of a *column major* traversal,
    /// without a bounds check: the caller guarantees the bounds.
    pub fn set_col_order_unchecked(&mut self, element: T, index: usize)
        requires
            old(self).wf(),
            index < old(self)@.len(),
        ensures
            final(self)@ == old(self)@.update(
                old(self).col_order_flat_of(index as int),
                element,
            ),
            final(self).nrows() == old(self).nrows(),
            final(self).ncols() == old(self).ncols(),
            final(self).wf(),
    {
        proof {
            lemma_col_order_step_in_bounds(self.nrows(), self.ncols(), index as int);
        }
        let col = index / self.rows;
        let row = index % self.rows;
        self.set_unchecked(element, row, col);
    }
}

/// # single element get methods (Copy)
impl<T: Copy> Grid2d<T> {
    /// Returns the element at the given `row` and `col`umn.
    pub fn get(&self, row: usize, col: usize) -> (r: Result<T, Error>)
        requires
            self.wf(),
        ensures
            self.in_bounds(row as int, col as int) ==> r == Ok::<T, Error>(
                self@[self.flat_of(row as int, col as int)],
            ),
            !self.in_bounds(row as int, col as int) ==> r == Err::<T, Error>(
                Error::IndicesOutOfBounds(row, col),
            ),
    {
        match self.get_ref(row, col) {
            Ok(p) => Ok(*p),
            Err(e) => Err(e),
        }
    }

    /// Returns the element at the given `row` and `col`umn, without a bounds
    /// check: the caller guarantees the bounds.
    pub fn get_unchecked(&self, row: usize, col: usize) -> (r: T)
        requires
            self.wf(),
            self.in_bounds(row as int, col as int),
        ensures
            r == self@[self.flat_of(row as int, col as int)],
    {
        *self.get_ref_unchecked(row, col)
    }

    /// Returns the element at the given flat index, in *row major order*.
    pub fn get_row_order(&self, index: usize) -> (r: Result<T, Error>)
        requires
            self.wf(),
        ensures
            index < self@.len() ==> r == Ok::<T, Error>(self@[index as int]),
            !(index < self@.len()) ==> r == Err::<T, Error>(Error::IndexOutOfBounds(index)),
    {
        match self.get_ref_row_order(index) {
            Ok(p) => Ok(*p),
            Err(e) => Err(e),
        }
    }

    /// Returns the element at the given flat index, in *row major order*,
    /// without a bounds check: the caller guarantees the bounds.
    pub fn get_row_order_unchecked(&self, index: usize) -> (r: T)
        requires
            self.wf(),
            index < self@.len(),
        ensures
            r == self@[index as int],
    {
        *self.get_ref_row_order_unchecked(index)
    }

    /// Returns the element at the given step of a *column major* traversal.
    pub fn get_col_order(&self, index: usize) -> (r: Result<T, Error>)
        requires
            self.wf(),
        ensures
            index < self@.len() ==> r == Ok::<T, Error>(
                self@[self.col_order_flat_of(index as int)],
            ),
            !(index < self@.len()) ==> r == Err::<T, Error>(Error::IndexOutOfBounds(index)),
    {
        match self.get_ref_col_order(index) {
            Ok(p) => Ok(*p),
            Err(e) => Err(e),
        }
    }

    /// Returns the element at the given step of a *column major* traversal,
    /// without a bounds check: the caller guarantees the bounds.
    pub fn get_col_order_unchecked(&self, index: usize) -> (r: T)
        requires
            self.wf(),
            index < self@.len(),
        ensures
            r == self@[self.col_order_flat_of(index as int)],
    {
        *self.get_ref_col_order_unchecked(index)
    }
}

/// A whole row lies inside the storage: for `row < rows`, the range from
/// `row * cols` to `row * cols + cols` is within `rows * cols`.
proof fn lemma_row_range(rows: int, cols: int, row: int)
    requires
        0 <= row < rows,
        0 <= cols,
    ensures
        0 <= row * cols,
        row * cols + cols <= rows * cols,
{
    assert(0 <= row * cols && row * cols + cols <= rows * cols) by (nonlinear_arith)
        requires
            0 <= row < rows,
            0 <= cols,
    ;
}

/// # iterators
impl<T> Grid2d<T> {
    /// Returns all elements in *row major order*, as a slice over the backing
    /// storage.
    pub fn iter(&self) -> (r: &[T])
        ensures
            r@ == self@,
    {
        self.grid.as_slice()
    }

    /// Returns all elements in *row major order*, as a mutable slice over the
    /// backing storage.
    pub fn iter_mut(&mut self) -> (r: &mut [T])
        ensures
            r@ == old(self)@,
            final(self)@ == final(r)@,
            final(self).nrows() == old(self).nrows(),
            final(self).ncols() == old(self).ncols(),
    {
        self.grid.as_mut_slice()
    }

    /// Returns the elements of the given row, left to right, as a slice.
    pub fn row_iter(&self, row: usize) -> (r: Result<&[T], Error>)
        requires
            self.wf(),
        ensures
            (row < self.nrows() && self.ncols() > 0) ==> (r matches Ok(s) && s@ == self@.subrange(
                self.flat_of(row as int, 0),
                self.flat_of(row as int, 0) + self.ncols(),
            )),
            !(row < self.nrows() && self.ncols() > 0) ==> r == Err::<&[T], Error>(
                Error::IndicesOutOfBounds(row, 0),
            ),
    {
        self.row(row)
    }

    /// Returns the elements of the given row as a slice, without a bounds
    /// check: the caller guarantees the bounds.
    pub fn row_iter_unchecked(&self, row: usize) -> (r: &[T])
        requires
            self.wf(),
            row < self.nrows(),
        ensures
            r@ == self@.subrange(
                self.flat_of(row as int, 0),
                self.flat_of(row as int, 0) + self.ncols(),
            ),
    {
        self.row_unchecked(row)
    }

    /// Returns the given row as a mutable slice.
    pub fn row_iter_mut(&mut self, row: usize) -> (r: Result<&mut [T], Error>)
        requires
            old(self).wf(),
        ensures
            (row < old(self).nrows() && old(self).ncols() > 0) ==> {
                &&& r.is_ok()
                &&& r.unwrap()@ == old(self)@.subrange(
                    old(self).flat_of(row as int, 0),
                    old(self).flat_of(row as int, 0) + old(self).ncols(),
                )
                &&& final(self)@ == old(self)@.subrange(0, old(self).flat_of(row as int, 0))
                    + final(r.unwrap())@ + old(self)@.subrange(
                    old(self).flat_of(row as int, 0) + old(self).ncols(),
                    old(self)@.len() as int,
                )
                &&& final(self).nrows() == old(self).nrows()
                &&& final(self).ncols() == old(self).ncols()
            },
            !(row < old(self).nrows() && old(self).ncols() > 0) ==> r == Err::<&mut [T], Error>(
                Error::IndicesOutOfBounds(row, 0),
            ) && *final(self) == *old(self),
    {
        self.row_mut(row)
    }

    /// Returns the given row as a mutable slice, without a bounds check: the
    /// caller guarantees the bounds.
    pub fn row_iter_mut_unchecked(&mut self, row: usize) -> (r: &mut [T])
        requires
            old(self).wf(),
            row < old(self).nrows(),
        ensures
            r@ == old(self)@.subrange(
                old(self).flat_of(row as int, 0),
                old(self).flat_of(row as int, 0) + old(self).ncols(),
            ),
            final(self)@ == old(self)@.subrange(0, old(self).flat_of(row as int, 0)) + final(r)@
                + old(self)@.subrange(
                old(self).flat_of(row as int, 0) + old(self).ncols(),
                old(self)@.len() as int,
            ),
            final(self).nrows() == old(self).nrows(),
            final(self).ncols() == old(self).ncols(),
    {
        self.row_mut_unchecked(row)
    }
}

/// # iterators that clone their elements
impl<T: Clone> Grid2d<T> {
    /// Returns all elements in *column major order*: grouped by column, each
    /// column top to bottom, columns left to right.
    pub fn iter_col_order(&self) -> (r: Vec<T>)
        requires
            self.wf(),
        ensures
            r@.len() == self.nrows() * self.ncols(),
            forall|k: int|
                0 <= k < r@.len() ==> cloned(self@[self.col_order_flat_of(k)], #[trigger] r@[k]),
    {
        let rows = self.rows;
        let cols = self.cols;
        let mut out: Vec<T> = Vec::new();
        let mut ci: usize = 0;
        while ci < cols
            invariant
                ci <= cols,
                rows == self.nrows(),
                cols == self.ncols(),
                self.wf(),
                out@.len() == ci * rows,
                forall|k: int|
                    0 <= k < ci * rows ==> cloned(
                        self@[self.col_order_flat_of(k)],
                        #[trigger] out@[k],
                    ),
            decreases cols - ci,
        {
            let mut ri: usize = 0;
            while ri < rows
                invariant
                    ci < cols,
                    ri <= rows,
                    rows == self.nrows(),
                    cols == self.ncols(),
                    self.wf(),
                    out@.len() == ci * rows + ri,
                    forall|k: int|
                        0 <= k < ci * rows + ri ==> cloned(
                            self@[self.col_order_flat_of(k)],
                            #[trigger] out@[k],
                        ),
                decreases rows - ri,
            {
                proof {
                    lemma_col_order_bijection(rows as int, cols as int, ri as int, ci as int);
                    lemma_index_coords_bijection(rows as int, cols as int, ri as int, ci as int);
                }
                let p = self.get_ref_unchecked(ri, ci);
                out.push(p.clone());
                ri = ri + 1;
            }
            proof {
                assert((ci as int + 1) * (rows as int) == (ci as int) * (rows as int)
                    + rows as int) by (nonlinear_arith);
            }
            ci = ci + 1;
        }
        proof {
            assert((cols as int) * (rows as int) == (rows as int) * (cols as int))
                by (nonlinear_arith);
        }
        out
    }

    /// Returns the elements of the given `col`umn, top to bottom.
    pub fn col_iter(&self, col: usize) -> (r: Result<Vec<T>, Error>)
        requires
            self.wf(),
        ensures
            col < self.ncols() ==> (r matches Ok(v) && v@.len() == self.nrows() && (forall|ri: int|
                0 <= ri < self.nrows() ==> cloned(
                    self@[self.flat_of(ri, col as int)],
                    #[trigger] v@[ri],
                ))),
            !(col < self.ncols()) ==> r == Err::<Vec<T>, Error>(Error::IndicesOutOfBounds(0, col)),
    {
        if col >= self.cols {
            return Err(Error::IndicesOutOfBounds(0, col));
        }
        Ok(self.col_iter_unchecked(col))
    }

    /// Returns the elements of the given `col`umn, top to bottom, without a
    /// bounds check: the caller guarantees the bounds.
    pub fn col_iter_unchecked(&self, col: usize) -> (r: Vec<T>)
        requires
            self.wf(),
            col < self.ncols(),
        ensures
            r@.len() == self.nrows(),
            forall|ri: int|
                0 <= ri < self.nrows() ==> cloned(
                    self@[self.flat_of(ri, col as int)],
                    #[trigger] r@[ri],
                ),
    {
        let rows = self.rows;
        let mut out: Vec<T> = Vec::new();
        let mut ri: usize = 0;
        while ri < rows
            invariant
                ri <= rows,
                rows == self.nrows(),
                col < self.ncols(),
                self.wf(),
                out@.len() == ri,
                forall|rk: int|
                    0 <= rk < ri ==> cloned(
                        self@[self.flat_of(rk, col as int)],
                        #[trigger] out@[rk],
                    ),
            decreases rows - ri,
        {
            let p = self.get_ref_unchecked(ri, col);
            out.push(p.clone());
            ri = ri + 1;
        }
        out
    }

    /// Returns every row of the grid, top to bottom, each as a vector of its
    /// elements left to right.
    pub fn rows_iter(&self) -> (r: Vec<Vec<T>>)
        requires
            self.wf(),
            self.nrows() == 0 || self.ncols() > 0,
        ensures
            r@.len() == self.nrows(),
            forall|ri: int| 0 <= ri < self.nrows() ==> #[trigger] r@[ri]@.len() == self.ncols(),
            forall|ri: int, ci: int|
                self.in_bounds(ri, ci) ==> cloned(
                    self@[self.flat_of(ri, ci)],
                    #[trigger] r@[ri]@[ci],
                ),
    {
        self.as_rows()
    }

    /// Returns every column of the grid, left to right, each as a vector of
    /// its elements top to bottom.
    pub fn cols_iter(&self) -> (r: Vec<Vec<T>>)
        requires
            self.wf(),
        ensures
            r@.len() == self.ncols(),
            forall|ci: int| 0 <= ci < self.ncols() ==> #[trigger] r@[ci]@.len() == self.nrows(),
            forall|ri: int, ci: int|
                self.in_bounds(ri, ci) ==> cloned(
                    self@[self.flat_of(ri, ci)],
                    #[trigger] r@[ci]@[ri],
                ),
    {
        self.as_cols()
    }

    /// Returns the storage partitioned into consecutive runs of `chunk_size`
    /// elements in *row major order*; the final run holds what remains.
    pub fn chunks_iter(&self, chunk_size: usize) -> (r: Vec<Vec<T>>)
        requires
            chunk_size >= 1,
        ensures
            r@.len() == (self@.len() + chunk_size - 1) as int / chunk_size as int,
            forall|j: int|
                0 <= j < r@.len() ==> #[trigger] r@[j]@.len() == (if j * chunk_size + chunk_size
                    <= self@.len() {
                    chunk_size as int
                } else {
                    self@.len() - j * chunk_size
                }),
            forall|j: int, q: int|
                0 <= j < r@.len() && 0 <= q < r@[j]@.len() ==> cloned(
                    self@[j * chunk_size + q],
                    #[trigger] r@[j]@[q],
                ),
    {
        let len = self.grid.len();
        let cs = chunk_size;
        let mut out: Vec<Vec<T>> = Vec::new();
        let mut i: usize = 0;
        let mut j: usize = 0;
        while i < len
            invariant
                cs >= 1,
                cs == chunk_size,
                len == self@.len(),
                i == j * cs,
                i <= len,
                j <= i,
                out@.len() == j,
                forall|jk: int|
                    0 <= jk < j ==> #[trigger] out@[jk]@.len() == (if jk * cs + cs <= len {
                        cs as int
                    } else {
                        len - jk * cs
                    }),
                forall|jk: int, q: int|
                    0 <= jk < j && 0 <= q < out@[jk]@.len() ==> cloned(
                        self@[jk * cs + q],
                        #[trigger] out@[jk]@[q],
                    ),
            decreases len - i,
        {
            let take = if cs <= len - i {
                cs
            } else {
                len - i
            };
            let mut piece: Vec<T> = Vec::new();
            let mut q: usize = 0;
            while q < take
                invariant
                    q <= take,
                    i + take <= len,
                    len == self@.len(),
                    piece@.len() == q,
                    forall|qk: int| 0 <= qk < q ==> cloned(self@[i + qk], #[trigger] piece@[qk]),
                decreases take - q,
            {
                piece.push(self.grid[i + q].clone());
                q = q + 1;
            }
            out.push(piece);
            proof {
                assert((j as int + 1) * (cs as int) == (j as int) * (cs as int) + cs as int)
                    by (nonlinear_arith);
            }
            if take < cs {
                // short final run: the partition is complete
                proof {
                    vstd::arithmetic::div_mod::lemma_fundamental_div_mod_converse(
                        len + cs - 1,
                        cs as int,
                        j as int + 1,
                        len + cs - 1 - (j as int + 1) * (cs as int),
                    );
                }
                return out;
            }
            i = i + cs;
            j = j + 1;
        }
        proof {
            vstd::arithmetic::div_mod::lemma_fundamental_div_mod_converse(
                len + cs - 1,
                cs as int,
                j as int,
                len + cs - 1 - (j as int) * (cs as int),
            );
        }
        out
    }
}

/// # collecting to Vec
impl<T: Clone> Grid2d<T> {
    /// Collects the grid into a vector of rows.
    pub fn as_rows(&self) -> (r: Vec<Vec<T>>)
        requires
            self.wf(),
            self.nrows() == 0 || self.ncols() > 0,
        ensures
            r@.len() == self.nrows(),
            forall|ri: int| 0 <= ri < self.nrows() ==> #[trigger] r@[ri]@.len() == self.ncols(),
            forall|ri: int, ci: int|
                self.in_bounds(ri, ci) ==> cloned(
                    self@[self.flat_of(ri, ci)],
                    #[trigger] r@[ri]@[ci],
                ),
    {
        let rows = self.rows;
        let cols = self.cols;
        let mut out: Vec<Vec<T>> = Vec::new();
        let mut ri: usize = 0;
        while ri < rows
            invariant
                ri <= rows,
                rows == self.nrows(),
                cols == self.ncols(),
                self.wf(),
                out@.len() == ri,
                forall|rk: int| 0 <= rk < ri ==> #[trigger] out@[rk]@.len() == cols,
                forall|rk: int, ck: int|
                    0 <= rk < ri && 0 <= ck < cols ==> cloned(
                        self@[self.flat_of(rk, ck)],
                        #[trigger] out@[rk]@[ck],
                    ),
            decreases rows - ri,
        {
            let mut row: Vec<T> = Vec::new();
            let mut ci: usize = 0;
            while ci < cols
                invariant
                    ri < rows,
                    ci <= cols,
                    rows == self.nrows(),
                    cols == self.ncols(),
                    self.wf(),
                    row@.len() == ci,
                    forall|ck: int|
                        0 <= ck < ci ==> cloned(
                            self@[self.flat_of(ri as int, ck)],
                            #[trigger] row@[ck],
                        ),
                decreases cols - ci,
            {
                let p = self.get_ref_unchecked(ri, ci);
                row.push(p.clone());
                ci = ci + 1;
            }
            out.push(row);
            ri = ri + 1;
        }
        out
    }

    /// Collects the grid into a vector of columns.
    pub fn as_cols(&self) -> (r: Vec<Vec<T>>)
        requires
            self.wf(),
        ensures
            r@.len() == self.ncols(),
            forall|ci: int| 0 <= ci < self.ncols() ==> #[trigger] r@[ci]@.len() == self.nrows(),
            forall|ri: int, ci: int|
                self.in_bounds(ri, ci) ==> cloned(
                    self@[self.flat_of(ri, ci)],
                    #[trigger] r@[ci]@[ri],
                ),
    {
        let rows = self.rows;
        let cols = self.cols;
        let mut out: Vec<Vec<T>> = Vec::new();
        let mut ci: usize = 0;
        while ci < cols
            invariant
                ci <= cols,
                rows == self.nrows(),
                cols == self.ncols(),
                self.wf(),
                out@.len() == ci,
                forall|ck: int| 0 <= ck < ci ==> #[trigger] out@[ck]@.len() == rows,
                forall|rk: int, ck: int|
                    0 <= rk < rows && 0 <= ck < ci ==> cloned(
                        self@[self.flat_of(rk, ck)],
                        #[trigger] out@[ck]@[rk],
                    ),
            decreases cols - ci,
        {
            let col = self.col_iter_unchecked(ci);
            out.push(col);
            ci = ci + 1;
        }
        out
    }

    /// Collects the grid into a vector of elements in *row major order*.
    pub fn as_row_order(&self) -> (r: Vec<T>)
        ensures
            seq_cloned(self@, r@),
    {
        let len = self.grid.len();
        let mut out: Vec<T> = Vec::new();
        let mut i: usize = 0;
        while i < len
            invariant
                i <= len,
                len == self@.len(),
                out@.len() == i,
                forall|k: int| 0 <= k < i ==> cloned(self@[k], #[trigger] out@[k]),
            decreases len - i,
        {
            out.push(self.grid[i].clone());
            i = i + 1;
        }
        out
    }

    /// Collects the grid into a vector of elements in *column major order*.
    pub fn as_col_order(&self) -> (r: Vec<T>)
        requires
            self.wf(),
        ensures
            r@.len() == self.nrows() * self.ncols(),
            forall|k: int|
                0 <= k < r@.len() ==> cloned(self@[self.col_order_flat_of(k)], #[trigger] r@[k]),
    {
        self.iter_col_order()
    }
}

/// # exposing the inner Vec
impl<T> Grid2d<T> {
    /// Returns the underlying `Vec`.
    pub fn vec(self) -> (r: Vec<T>)
        ensures
            r@ == self@,
    {
        self.grid
    }

    /// Returns a reference to the underlying `Vec`.
    pub fn vec_ref(&self) -> (r: &Vec<T>)
        ensures
            r@ == self@,
    {
        &self.grid
    }

    /// Returns a mutable reference to the underlying `Vec`.
    ///
    /// The caller may change the storage's length through it, in which case
    /// `wf` no longer holds of the grid.
    pub fn vec_ref_mut(&mut self) -> (r: &mut Vec<T>)
        ensures
            r@ == old(self)@,
            final(self)@ == final(r)@,
            final(self).nrows() == old(self).nrows(),
            final(self).ncols() == old(self).ncols(),
    {
        &mut self.grid
    }
}

/// # row slices
impl<T> Grid2d<T> {
    /// Returns a slice of the requested row.
    pub fn row(&self, row: usize) -> (r: Result<&[T], Error>)
        requires
            self.wf(),
        ensures
            (row < self.nrows() && self.ncols() > 0) ==> (r matches Ok(s) && s@ == self@.subrange(
                self.flat_of(row as int, 0),
                self.flat_of(row as int, 0) + self.ncols(),
            )),
            !(row < self.nrows() && self.ncols() > 0) ==> r == Err::<&[T], Error>(
                Error::IndicesOutOfBounds(row, 0),
            ),
    {
        match self.get_index(row, 0) {
            Ok(start) => {
                proof {
                    lemma_row_range(self.nrows(), self.ncols(), row as int);
                    assert(self.grid.len() == self@.len());
                }
                let end = start + self.cols;
                Ok(&self.grid.as_slice()[start..end])
            },
            Err(e) => Err(e),
        }
    }

    /// Returns a slice of the requested row, without a bounds check: the
    /// caller guarantees the bounds.
    pub fn row_unchecked(&self, row: usize) -> (r: &[T])
        requires
            self.wf(),
            row < self.nrows(),
        ensures
            r@ == self@.subrange(
                self.flat_of(row as int, 0),
                self.flat_of(row as int, 0) + self.ncols(),
            ),
    {
        proof {
            lemma_row_range(self.nrows(), self.ncols(), row as int);
            assert(self.grid.len() == self@.len());
        }
        let start = row * self.cols;
        let end = start + self.cols;
        &self.grid.as_slice()[start..end]
    }

    /// Returns a mutable slice of the requested row.
    pub fn row_mut(&mut self, row: usize) -> (r: Result<&mut [T], Error>)
        requires
            old(self).wf(),
        ensures
            (row < old(self).nrows() && old(self).ncols() > 0) ==> {
                &&& r.is_ok()
                &&& r.unwrap()@ == old(self)@.subrange(
                    old(self).flat_of(row as int, 0),
                    old(self).flat_of(row as int, 0) + old(self).ncols(),
                )
                &&& final(self)@ == old(self)@.subrange(0, old(self).flat_of(row as int, 0))
                    + final(r.unwrap())@ + old(self)@.subrange(
                    old(self).flat_of(row as int, 0) + old(self).ncols(),
                    old(self)@.len() as int,
                )
                &&& final(self).nrows() == old(self).nrows()
                &&& final(self).ncols() == old(self).ncols()
            },
            !(row < old(self).nrows() && old(self).ncols() > 0) ==> r == Err::<&mut [T], Error>(
                Error::IndicesOutOfBounds(row, 0),
            ) && *final(self) == *old(self),
    {
        if row < self.rows && self.cols > 0 {
            Ok(self.row_mut_unchecked(row))
        } else {
            Err(Error::IndicesOutOfBounds(row, 0))
        }
    }

    /// Returns a mutable slice of the requested row, without a bounds check:
    /// the caller guarantees the bounds.
    pub fn row_mut_unchecked(&mut self, row: usize) -> (r: &mut [T])
        requires
            old(self).wf(),
            row < old(self).nrows(),
        ensures
            r@ == old(self)@.subrange(
                old(self).flat_of(row as int, 0),
                old(self).flat_of(row as int, 0) + old(self).ncols(),
            ),
            final(self)@ == old(self)@.subrange(0, old(self).flat_of(row as int, 0)) + final(r)@
                + old(self)@.subrange(
                old(self).flat_of(row as int, 0) + old(self).ncols(),
                old(self)@.len() as int,
            ),
            final(self).nrows() == old(self).nrows(),
            final(self).ncols() == old(self).ncols(),
    {
        proof {
            lemma_row_range(self.nrows(), self.ncols(), row as int);
            assert(self.grid.len() == self@.len());
        }
        let start = row * self.cols;
        let cols = self.cols;
        let s = self.grid.as_mut_slice();
        let (_head, tail) = s.split_at_mut(start);
        let (mid, _rest) = tail.split_at_mut(cols);
        mid
    }
}

/// # get chunks
impl<T> Grid2d<T> {
    /// Returns a slice of the chunk of elements at the given `row` and chunk
    /// `col`umn.
    pub fn get_chunk(&self, chunk_len: usize, row: usize, col: usize) -> (r: Result<&[T], Error>)
        requires
            self.wf(),
            chunk_len >= 1,
        ensures
            (row < self.nrows() && col < self.ncols() / chunk_len as int) ==> (r matches Ok(s)
                && s@ == self@.subrange(
                row * self.ncols() + col * chunk_len,
                row * self.ncols() + col * chunk_len + chunk_len,
            )),
            !(row < self.nrows() && col < self.ncols() / chunk_len as int) ==> r == Err::<
                &[T],
                Error,
            >(Error::ChunkIndicesOutOfBounds(row, col, chunk_len)),
    {
        match self.get_chunk_index(chunk_len, row, col) {
            Ok(index) => {
                proof {
                    assert(self.grid.len() == self@.len());
                }
                Ok(&self.grid.as_slice()[index..index + chunk_len])
            },
            Err(e) => Err(e),
        }
    }

    /// Returns a slice of the chunk of elements at the given `row` and chunk
    /// `col`umn, without a bounds check: the caller guarantees the bounds.
    pub fn get_chunk_unchecked(&self, chunk_len: usize, row: usize, col: usize) -> (r: &[T])
        requires
            self.wf(),
            chunk_len >= 1,
            row < self.nrows(),
            col < self.ncols() / chunk_len as int,
        ensures
            r@ == self@.subrange(
                row * self.ncols() + col * chunk_len,
                row * self.ncols() + col * chunk_len + chunk_len,
            ),
    {
        let index = self.get_chunk_index_unchecked(chunk_len, row, col);
        proof {
            assert(self.grid.len() == self@.len());
        }
        &self.grid.as_slice()[index..index + chunk_len]
    }

    /// Returns a mutable slice of the chunk of elements at the given `row`
    /// and chunk `col`umn.
    pub fn get_chunk_mut(&mut self, chunk_len: usize, row: usize, col: usize) -> (r: Result<
        &mut [T],
        Error,
    >)
        requires
            old(self).wf(),
            chunk_len >= 1,
        ensures
            (row < old(self).nrows() && col < old(self).ncols() / chunk_len as int) ==> {
                &&& r.is_ok()
                &&& r.unwrap()@ == old(self)@.subrange(
                    row * old(self).ncols() + col * chunk_len,
                    row * old(self).ncols() + col * chunk_len + chunk_len,
                )
                &&& final(self)@ == old(self)@.subrange(
                    0,
                    row * old(self).ncols() + col * chunk_len,
                ) + final(r.unwrap())@ + old(self)@.subrange(
                    row * old(self).ncols() + col * chunk_len + chunk_len,
                    old(self)@.len() as int,
                )
                &&& final(self).nrows() == old(self).nrows()
                &&& final(self).ncols() == old(self).ncols()
            },
            !(row < old(self).nrows() && col < old(self).ncols() / chunk_len as int) ==> r == Err::<
                &mut [T],
                Error,
            >(Error::ChunkIndicesOutOfBounds(row, col, chunk_len)) && *final(self) == *old(self),
    {
        if row < self.rows && col < (self.cols / chunk_len) {
            Ok(self.get_chunk_mut_unchecked(chunk_len, row, col))
        } else {
            Err(Error::ChunkIndicesOutOfBounds(row, col, chunk_len))
        }
    }

    /// Returns a mutable slice of the chunk of elements at the given `row`
    /// and chunk `col`umn, without a bounds check: the caller guarantees the
    /// bounds.
    pub fn get_chunk_mut_unchecked(&mut self, chunk_len: usize, row: usize, col: usize) -> (r:
        &mut [T])
        requires
            old(self).wf(),
            chunk_len >= 1,
            row < old(self).nrows(),
            col < old(self).ncols() / chunk_len as int,
        ensures
            r@ == old(self)@.subrange(
                row * old(self).ncols() + col * chunk_len,
                row * old(self).ncols() + col * chunk_len + chunk_len,
            ),
            final(self)@ == old(self)@.subrange(0, row * old(self).ncols() + col * chunk_len)
                + final(r)@ + old(self)@.subrange(
                row * old(self).ncols() + col * chunk_len + chunk_len,
                old(self)@.len() as int,
            ),
            final(self).nrows() == old(self).nrows(),
            final(self).ncols() == old(self).ncols(),
    {
        let index = self.get_chunk_index_unchecked(chunk_len, row, col);
        proof {
            assert(self.grid.len() == self@.len());
        }
        let s = self.grid.as_mut_slice();
        let (_head, tail) = s.split_at_mut(index);
        let (mid, _rest) = tail.split_at_mut(chunk_len);
        mid
    }
}

/// # set chunks
impl<T: Clone> Grid2d<T> {
    /// Sets the elements of the chunk at the given `row` and chunk `col`umn
    /// to clones of the first `chunk_len` entries of `elements`.
    pub fn set_chunk(
        &mut self,
        chunk_len: usize,
        row: usize,
        col: usize,
        elements: &[T],
    ) -> (r: Result<(), Error>)
        requires
            old(self).wf(),
            chunk_len >= 1,
            (row < old(self).nrows() && col < old(self).ncols() / chunk_len as int)
                ==> elements@.len() >= chunk_len,
        ensures
            (row < old(self).nrows() && col < old(self).ncols() / chunk_len as int) ==> {
                &&& r == Ok::<(), Error>(())
                &&& final(self)@.len() == old(self)@.len()
                &&& forall|k: int|
                    row * old(self).ncols() + col * chunk_len <= k < row * old(self).ncols() + col
                        * chunk_len + chunk_len ==> cloned(
                        elements@[k - (row * old(self).ncols() + col * chunk_len)],
                        #[trigger] final(self)@[k],
                    )
                &&& forall|k: int|
                    0 <= k < old(self)@.len() && !(row * old(self).ncols() + col * chunk_len <= k
                        < row * old(self).ncols() + col * chunk_len + chunk_len)
                        ==> #[trigger] final(self)@[k] == old(self)@[k]
            },
            !(row < old(self).nrows() && col < old(self).ncols() / chunk_len as int) ==> r == Err::<
                (),
                Error,
            >(Error::ChunkIndicesOutOfBounds(row, col, chunk_len)) && final(self)@ == old(self)@,
            final(self).nrows() == old(self).nrows(),
            final(self).ncols() == old(self).ncols(),
            final(self).wf() == old(self).wf(),
    {
        if row < self.rows && col < (self.cols / chunk_len) {
            self.set_chunk_unchecked(chunk_len, row, col, elements);
            Ok(())
        } else {
            Err(Error::ChunkIndicesOutOfBounds(row, col, chunk_len))
        }
    }

    /// Sets the elements of the chunk at the given `row` and chunk `col`umn,
    /// without a bounds check: the caller guarantees the bounds.
    pub fn set_chunk_unchecked(&mut self, chunk_len: usize, row: usize, col: usize, elements: &[T])
        requires
            old(self).wf(),
            chunk_len >= 1,
            row < old(self).nrows(),
            col < old(self).ncols() / chunk_len as int,
            elements@.len() >= chunk_len,
        ensures
            final(self)@.len() == old(self)@.len(),
            forall|k: int|
                row * old(self).ncols() + col * chunk_len <= k < row * old(self).ncols() + col
                    * chunk_len + chunk_len ==> cloned(
                    elements@[k - (row * old(self).ncols() + col * chunk_len)],
                    #[trigger] final(self)@[k],
                ),
            forall|k: int|
                0 <= k < old(self)@.len() && !(row * old(self).ncols() + col * chunk_len <= k < row
                    * old(self).ncols() + col * chunk_len + chunk_len) ==> #[trigger] final(self)@[k] == old(self)@[k],
            final(self).nrows() == old(self).nrows(),
            final(self).ncols() == old(self).ncols(),
            final(self).wf() == old(self).wf(),
    {
        let index = self.get_chunk_index_unchecked(chunk_len, row, col);
        proof {
            assert(self.grid.len() == self@.len());
        }
        let mut n: usize = 0;
        while n < chunk_len
            invariant
                n <= chunk_len,
                index + chunk_len <= self@.len(),
                index + chunk_len <= usize::MAX,
                elements@.len() >= chunk_len,
                self@.len() == old(self)@.len(),
                forall|k: int|
                    index <= k < index + n ==> cloned(
                        elements@[k - index],
                        #[trigger] self@[k],
                    ),
                forall|k: int|
                    0 <= k < old(self)@.len() && !(index <= k < index + n) ==> #[trigger] self@[k]
                        == old(self)@[k],
                self.nrows() == old(self).nrows(),
                self.ncols() == old(self).ncols(),
            decreases chunk_len - n,
        {
            self.grid.set(index + n, elements[n].clone());
            n = n + 1;
        }
    }
}

/// Cloning on `T` preserves the value: every result of `T::clone` equals its
/// source.  Holds of every type whose `clone` contract pins the result, such
/// as the primitive integers.
pub open spec fn exact_clones<T: Clone>() -> bool {
    forall|a: T, b: T| #[trigger] cloned(a, b) ==> a == b
}

/// The rows of a nested sequence laid end to end, first row first.
pub open spec fn flatten_rows<T>(x: Seq<Seq<T>>) -> Seq<T>
    decreases x.len(),
{
    if x.len() == 0 {
        Seq::empty()
    } else {
        x[0] + flatten_rows(x.subrange(1, x.len() as int))
    }
}

/// Flattening rows of one common length `l` gives a sequence of
/// `x.len() * l` elements in row major order: the element of row `ri` at
/// column `ci` stands at flat index `ri * l + ci`.
pub proof fn lemma_flatten_rows_uniform<T>(x: Seq<Seq<T>>, l: int)
    requires
        0 <= l,
        forall|i: int| 0 <= i < x.len() ==> #[trigger] x[i].len() == l,
    ensures
        flatten_rows(x).len() == x.len() * l,
        forall|ri: int, ci: int|
            0 <= ri < x.len() && 0 <= ci < l ==> #[trigger] flatten_rows(x)[ri * l + ci]
                == x[ri][ci],
    decreases x.len(),
{
    if x.len() == 0 {
        assert(x.len() * l == 0) by (nonlinear_arith)
            requires
                x.len() == 0,
        ;
    } else {
        let tail = x.subrange(1, x.len() as int);
        lemma_flatten_rows_uniform(tail, l);
        assert((x.len() - 1) * l + l == x.len() * l) by (nonlinear_arith);
        assert forall|ri: int, ci: int|
            0 <= ri < x.len() && 0 <= ci < l implies #[trigger] flatten_rows(x)[ri * l + ci]
            == x[ri][ci] by {
            if l > 0 {
                lemma_index_coords_bijection(x.len() as int, l, ri, ci);
            }
            if ri == 0 {
                assert(ri * l == 0) by (nonlinear_arith)
                    requires
                        ri == 0,
                ;
            } else {
                assert(l <= ri * l && ri * l + ci - l == (ri - 1) * l + ci) by (nonlinear_arith)
                    requires
                        1 <= ri,
                        0 <= ci,
                        0 <= l,
                ;
                assert(flatten_rows(tail)[(ri - 1) * l + ci] == tail[ri - 1][ci]);
            }
        }
    }
}

/// Row-major agreement: a grid built `from_rows` of `x` hands its storage
/// back, through `as_row_order`, as exactly the flattening of `x` — provided
/// cloning on `T` preserves values.  The `requires` restate what `from_rows`
/// and `as_row_order` ensure of `g` and `out`.
pub proof fn lemma_from_rows_as_row_order_is_flatten<T: Clone>(
    x: Seq<Seq<T>>,
    g: Grid2d<T>,
    out: Seq<T>,
)
    requires
        exact_clones::<T>(),
        forall|i: int|
            0 <= i < x.len() ==> #[trigger] x[i].len() == (if x.len() == 0 {
                0int
            } else {
                x[0].len() as int
            }),
        g.wf(),
        g.nrows() == x.len(),
        g.ncols() == (if x.len() == 0 {
            0int
        } else {
            x[0].len() as int
        }),
        forall|ri: int, ci: int|
            g.in_bounds(ri, ci) ==> cloned(x[ri][ci], #[trigger] g@[ri * g.ncols() + ci]),
        seq_cloned(g@, out),
    ensures
        out == flatten_rows(x),
{
    let l = g.ncols();
    lemma_flatten_rows_uniform(x, l);
    assert forall|k: int| 0 <= k < out.len() implies out[k] == flatten_rows(x)[k] by {
        lemma_positive_capacity_has_cols(g.nrows(), l, k);
        let ri = k / l;
        let ci = k % l;
        vstd::arithmetic::div_mod::lemma_fundamental_div_mod(k, l);
        assert(0 <= ri < g.nrows()) by (nonlinear_arith)
            requires
                0 <= k < g.nrows() * l,
                l > 0,
                k == l * ri + ci,
                0 <= ci < l,
        ;
        assert(k == ri * l + ci) by (nonlinear_arith)
            requires
                k == l * ri + ci,
        ;
        assert(cloned(x[ri][ci], g@[ri * l + ci]));
        assert(cloned(g@[k], out[k]));
    }
    assert(out =~= flatten_rows(x));
}

/// Column agreement: a grid built `from_cols` of `y` hands its columns back,
/// through `as_cols`, as exactly `y` — provided cloning on `T` preserves
/// values.  The `requires` restate what `from_cols` and `as_cols` ensure of
/// `g` and `out`.
pub proof fn lemma_from_cols_as_cols_identity<T: Clone>(
    y: Seq<Seq<T>>,
    g: Grid2d<T>,
    out: Seq<Seq<T>>,
)
    requires
        exact_clones::<T>(),
        forall|i: int|
            0 <= i < y.len() ==> #[trigger] y[i].len() == (if y.len() == 0 {
                0int
            } else {
                y[0].len() as int
            }),
        g.wf(),
        g.ncols() == y.len(),
        g.nrows() == (if y.len() == 0 {
            0int
        } else {
            y[0].len() as int
        }),
        forall|ri: int, ci: int|
            g.in_bounds(ri, ci) ==> cloned(y[ci][ri], #[trigger] g@[ri * g.ncols() + ci]),
        out.len() == g.ncols(),
        forall|ci: int| 0 <= ci < g.ncols() ==> #[trigger] out[ci].len() == g.nrows(),
        forall|ri: int, ci: int|
            g.in_bounds(ri, ci) ==> cloned(g@[g.flat_of(ri, ci)], #[trigger] out[ci][ri]),
    ensures
        out == y,
{
    assert forall|ci: int| 0 <= ci < out.len() implies out[ci] =~= y[ci] by {
        assert forall|ri: int| 0 <= ri < g.nrows() implies out[ci][ri] == y[ci][ri] by {
            assert(cloned(y[ci][ri], g@[ri * g.ncols() + ci]));
            assert(cloned(g@[g.flat_of(ri, ci)], out[ci][ri]));
        }
    }
    assert(out =~~= y);
}

/// Row/column major agreement: a grid built `from_row_order` of `a` and one
/// built `from_col_order` of the transposed flat data `b` hold the same
/// elements at every cell — provided cloning on `T` preserves values.  The
/// `requires` restate what the two constructors ensure of `g1` and `g2`,
/// and that `b` is `a` transposed.
pub proof fn lemma_row_order_col_order_agree<T: Clone>(
    a: Seq<T>,
    b: Seq<T>,
    rows: int,
    cols: int,
    g1: Grid2d<T>,
    g2: Grid2d<T>,
)
    requires
        exact_clones::<T>(),
        0 <= rows,
        0 <= cols,
        a.len() == rows * cols,
        b.len() == rows * cols,
        forall|ri: int, ci: int|
            0 <= ri < rows && 0 <= ci < cols ==> #[trigger] b[ci * rows + ri] == a[ri * cols + ci],
        g1.wf(),
        g1.nrows() == rows,
        g1.ncols() == cols,
        seq_cloned(a, g1@),
        g2.wf(),
        g2.nrows() == rows,
        g2.ncols() == cols,
        forall|ri: int, ci: int|
            g2.in_bounds(ri, ci) ==> cloned(b[ci * rows + ri], #[trigger] g2@[ri * cols + ci]),
    ensures
        g1@ == g2@,
{
    assert forall|k: int| 0 <= k < g1@.len() implies g1@[k] == g2@[k] by {
        lemma_positive_capacity_has_cols(rows, cols, k);
        let ri = k / cols;
        let ci = k % cols;
        vstd::arithmetic::div_mod::lemma_fundamental_div_mod(k, cols);
        assert(0 <= ri < rows) by (nonlinear_arith)
            requires
                0 <= k < rows * cols,
                cols > 0,
                k == cols * ri + ci,
                0 <= ci < cols,
        ;
        assert(k == ri * cols + ci) by (nonlinear_arith)
            requires
                k == cols * ri + ci,
        ;
        assert(cloned(a[k], g1@[k]));
        assert(cloned(b[ci * rows + ri], g2@[ri * cols + ci]));
    }
    assert(g1@ =~= g2@);
}

/// Collects mutable references to the element at offset `col` within each
/// consecutive run of `cols` elements of `s`: the cells of column `col` when
/// `s` is a row-major grid of full rows.
fn col_refs<'a, T>(s: &'a mut [T], cols: usize, col: usize) -> (r: Vec<&'a mut T>)
    requires
        1 <= cols,
        col < cols,
        old(s)@.len() as int % (cols as int) == 0,
    ensures
        r@.len() == old(s)@.len() as int / (cols as int),
        forall|ri: int|
            0 <= ri < r@.len() ==> *(#[trigger] r@[ri]) == old(s)@[ri * (cols as int) + col],
        final(s)@.len() == old(s)@.len(),
        forall|ri: int|
            0 <= ri < r@.len() ==> final(s)@[ri * (cols as int) + col] == *final(#[trigger] r@[ri]),
        forall|j: int|
            0 <= j < old(s)@.len() && j % (cols as int) != col ==> final(s)@[j] == old(s)@[j],
    decreases old(s)@.len(),
{
    let ghost c = cols as int;
    if s.len() == 0 {
        proof {
            vstd::arithmetic::div_mod::lemma_fundamental_div_mod_converse(0, c, 0, 0);
        }
        Vec::new()
    } else {
        proof {
            let n = old(s)@.len() as int;
            vstd::arithmetic::div_mod::lemma_fundamental_div_mod(n, c);
            let q = n / c;
            assert(n == c * q ==> (n > 0 ==> q >= 1 && c * q >= c && c * (q - 1) == n - c))
                by (nonlinear_arith)
                requires
                    c >= 1,
            ;
            vstd::arithmetic::div_mod::lemma_div_multiples_vanish(q - 1, c);
            vstd::arithmetic::div_mod::lemma_mod_multiples_vanish(q - 1, 0, c);
        }
        let ghost n = s@.len() as int;
        let ghost q = n / c;
        let (head, tail) = s.split_at_mut(cols);
        let el = &mut head[col];
        let mut rest = col_refs(tail, cols, col);
        rest.insert(0, el);
        proof {
            assert(rest@.len() == q);
            assert forall|ri: int| 1 <= ri < q implies (ri - 1) * c + col == #[trigger] (ri * c)
                + col - c && c <= ri * c + col < n by {
                assert((ri - 1) * c + col == ri * c + col - c && c <= ri * c && ri * c + col < q
                    * c && q * c == c * q) by (nonlinear_arith)
                    requires
                        1 <= ri < q,
                        0 <= col < c,
                ;
            }
            assert(0 * c + col == col) by (nonlinear_arith);
            assert forall|j: int| c <= j < n implies (j - c) % c == #[trigger] (j % c) by {
                vstd::arithmetic::div_mod::lemma_mod_multiples_vanish(-1, j, c);
                assert(c * (-1) + j == j - c);
            }
            assert forall|j: int| 0 <= j < c implies #[trigger] (j % c) == j by {
                vstd::arithmetic::div_mod::lemma_small_mod(j as nat, c as nat);
            }
        }
        rest
    }
}

/// # mutable column access
impl<T> Grid2d<T> {
    /// Returns mutable references to the elements of the given `col`umn, top
    /// to bottom.
    pub fn col_iter_mut(&mut self, col: usize) -> (r: Result<Vec<&mut T>, Error>)
        requires
            old(self).wf(),
        ensures
            col < old(self).ncols() ==> {
                &&& r.is_ok()
                &&& r.unwrap()@.len() == old(self).nrows()
                &&& forall|ri: int|
                    0 <= ri < old(self).nrows() ==> *(#[trigger] r.unwrap()@[ri]) == old(
                        self,
                    )@[old(self).flat_of(ri, col as int)]
                &&& final(self)@.len() == old(self)@.len()
                &&& forall|ri: int|
                    0 <= ri < old(self).nrows() ==> final(self)@[old(self).flat_of(
                        ri,
                        col as int,
                    )] == *final(#[trigger] r.unwrap()@[ri])
                &&& forall|j: int|
                    0 <= j < old(self)@.len() && j % old(self).ncols() != col
                        ==> final(self)@[j] == old(self)@[j]
                &&& final(self).nrows() == old(self).nrows()
                &&& final(self).ncols() == old(self).ncols()
            },
            !(col < old(self).ncols()) ==> (r matches Err(e) && e == Error::IndicesOutOfBounds(
                0,
                col,
            ) && *final(self) == *old(self)),
    {
        if col >= self.cols {
            return Err(Error::IndicesOutOfBounds(0, col));
        }
        Ok(self.col_iter_mut_unchecked(col))
    }

    /// Returns mutable references to the elements of the given `col`umn, top
    /// to bottom, without a bounds check: the caller guarantees the bounds.
    pub fn col_iter_mut_unchecked(&mut self, col: usize) -> (r: Vec<&mut T>)
        requires
            old(self).wf(),
            col < old(self).ncols(),
        ensures
            r@.len() == old(self).nrows(),
            forall|ri: int|
                0 <= ri < old(self).nrows() ==> *(#[trigger] r@[ri]) == old(self)@[old(
                    self,
                ).flat_of(ri, col as int)],
            final(self)@.len() == old(self)@.len(),
            forall|ri: int|
                0 <= ri < old(self).nrows() ==> final(self)@[old(self).flat_of(ri, col as int)]
                    == *final(#[trigger] r@[ri]),
            forall|j: int|
                0 <= j < old(self)@.len() && j % old(self).ncols() != col ==> final(self)@[j]
                    == old(self)@[j],
            final(self).nrows() == old(self).nrows(),
            final(self).ncols() == old(self).ncols(),
    {
        let cols = self.cols;
        proof {
            vstd::arithmetic::div_mod::lemma_fundamental_div_mod_converse(
                self@.len() as int,
                cols as int,
                self.nrows(),
                0,
            );
        }
        let s = self.grid.as_mut_slice();
        col_refs(s, cols, col)
    }
}

/// Splits `s` into consecutive runs of `cs` elements, the last run holding
/// what remains, and hands each run out as a mutable slice.
#[verifier::rlimit(60)]
fn chunk_refs<'a, T>(s: &'a mut [T], cs: usize) -> (r: Vec<&'a mut [T]>)
    requires
        1 <= cs,
    ensures
        r@.len() == (old(s)@.len() + cs - 1) as int / cs as int,
        forall|j: int|
            #![trigger r@[j]]
            0 <= j < r@.len() ==> r@[j]@ == old(s)@.subrange(
                j * (cs as int),
                if j * (cs as int) + cs <= old(s)@.len() {
                    j * (cs as int) + cs
                } else {
                    old(s)@.len() as int
                },
            ),
    decreases old(s)@.len(),
{
    let ghost c = cs as int;
    if s.len() == 0 {
        proof {
            vstd::arithmetic::div_mod::lemma_fundamental_div_mod_converse(c - 1, c, 0, c - 1);
        }
        Vec::new()
    } else {
        let ghost n = s@.len() as int;
        let ghost s_init = s@;
        let take = if cs <= s.len() {
            cs
        } else {
            s.len()
        };
        let (head, tail) = s.split_at_mut(take);
        let ghost tail_init = tail@;
        let mut rest = chunk_refs(tail, cs);
        let ghost rest_before = rest@;
        rest.insert(0, head);
        proof {
            if take < cs {
                vstd::arithmetic::div_mod::lemma_fundamental_div_mod_converse(c - 1, c, 0, c - 1);
                vstd::arithmetic::div_mod::lemma_fundamental_div_mod_converse(n + c - 1, c, 1, n
                    - 1);
            } else {
                vstd::arithmetic::div_mod::lemma_fundamental_div_mod(n - 1, c);
                let q2 = (n - 1) / c;
                assert(n - 1 == c * q2 + (n - 1) % c ==> n + c - 1 == (q2 + 1) * c + (n - 1) % c)
                    by (nonlinear_arith);
                vstd::arithmetic::div_mod::lemma_fundamental_div_mod_converse(
                    n + c - 1,
                    c,
                    q2 + 1,
                    (n - 1) % c,
                );
            }
            assert(0 * c == 0) by (nonlinear_arith);
            assert forall|j: int| 1 <= j < rest@.len() implies rest@[j]@ == s_init.subrange(
                j * c,
                if j * c + c <= n {
                    j * c + c
                } else {
                    n
                },
            ) by {
                assert((j - 1) * c == j * c - c && c <= j * c) by (nonlinear_arith)
                    requires
                        1 <= j,
                        1 <= c,
                ;
                assert(rest@[j] == rest_before[j - 1]);
                if take == cs {
                    let m = n - c;
                    let qq = (m + c - 1) / c;
                    vstd::arithmetic::div_mod::lemma_fundamental_div_mod(m + c - 1, c);
                    assert(j - 1 < qq ==> (j - 1) * c < m) by (nonlinear_arith)
                        requires
                            m + c - 1 == c * qq + ((m + c - 1) % c),
                            0 <= (m + c - 1) % c < c,
                            1 <= c,
                    ;
                    let lo = (j - 1) * c;
                    let hi = if lo + c <= m {
                        lo + c
                    } else {
                        m
                    };
                    assert(tail_init.subrange(lo, hi) =~= s_init.subrange(lo + c, hi + c));
                }
            }
        }
        rest
    }
}

/// # mutable chunk iteration
impl<T> Grid2d<T> {
    /// Returns the storage partitioned into consecutive runs of `chunk_size`
    /// elements in *row major order*, each run a mutable slice over its part
    /// of the storage; the final run holds what remains.  Writes through the
    /// runs land in the grid in place.
    pub fn chunks_iter_mut(&mut self, chunk_size: usize) -> (r: Vec<&mut [T]>)
        requires
            chunk_size >= 1,
        ensures
            r@.len() == (old(self)@.len() + chunk_size - 1) as int / chunk_size as int,
            forall|j: int|
                #![trigger r@[j]]
                0 <= j < r@.len() ==> r@[j]@ == old(self)@.subrange(
                    j * (chunk_size as int),
                    if j * (chunk_size as int) + chunk_size <= old(self)@.len() {
                        j * (chunk_size as int) + chunk_size
                    } else {
                        old(self)@.len() as int
                    },
                ),
            final(self).nrows() == old(self).nrows(),
            final(self).ncols() == old(self).ncols(),
    {
        let s = self.grid.as_mut_slice();
        chunk_refs(s, chunk_size)
    }
}

} // verus!
