//! The spin lattice: an `n_x` by `n_y` grid of spins in `{-1, +1}` whose
//! edges wrap around, stored in an `ndarray` array.
use ndarray::Array2;
use ndarray::ShapeBuilder;
use vstd::prelude::*;

verus! {

/// An `ndarray` array of spins. Verus cannot declare `ndarray::ArrayBase`
/// (its storage bound is an outside trait), so the array is held here, out of
/// Verus's sight, and read and written only through the functions below.
#[verifier::external_body]
pub struct Grid {
    a: Array2<i8>,
}

/// What a two-dimensional `ndarray` array of spins holds, by `(row, column)`.
pub uninterp spec fn grid_cells(g: Grid) -> Map<(int, int), i8>;

/// The shape, `(rows, columns)`, that a two-dimensional array was made with.
pub uninterp spec fn grid_shape(g: Grid) -> (nat, nat);

/// Relies on `ndarray::ArrayBase::ones`: an array of the given shape with
/// every element one (column-major layout, which indexing does not see).
/// It panics when the product of the non-zero axis lengths overflows
/// `isize`, so both axes are required to be non-empty.
#[verifier::external_body]
fn grid_of_ones(n_x: usize, n_y: usize) -> (r: Grid)
    requires
        0 < n_x,
        0 < n_y,
        n_x * n_y <= isize::MAX,
    ensures
        grid_shape(r) == (n_x as nat, n_y as nat),
        forall|i: int, j: int|
            0 <= i < n_x && 0 <= j < n_y ==> #[trigger] grid_cells(r)[(i, j)] == 1,
{
    Grid { a: Array2::<i8>::ones((n_x, n_y).f()) }
}

/// Relies on indexing `ndarray::ArrayBase` by `[i, j]`: reads the element at
/// row `i`, column `j`; it panics out of bounds.
#[verifier::external_body]
fn grid_get(g: &Grid, i: usize, j: usize) -> (r: i8)
    requires
        i < grid_shape(*g).0,
        j < grid_shape(*g).1,
    ensures
        r == grid_cells(*g)[(i as int, j as int)],
{
    g.a[[i, j]]
}

/// Relies on mutable indexing of `ndarray::ArrayBase` by `[i, j]`: writes the
/// element at row `i`, column `j` and no other; the shape is kept.
#[verifier::external_body]
fn grid_set(g: &mut Grid, i: usize, j: usize, v: i8)
    requires
        i < grid_shape(*old(g)).0,
        j < grid_shape(*old(g)).1,
    ensures
        grid_shape(*final(g)) == grid_shape(*old(g)),
        forall|p: int, q: int|
            0 <= p < grid_shape(*old(g)).0 && 0 <= q < grid_shape(*old(g)).1 ==> #[trigger] grid_cells(
                *final(g),
            )[(p, q)] == if p == i && q == j {
                v
            } else {
                grid_cells(*old(g))[(p, q)]
            },
{
    g.a[[i, j]] = v;
}

/// The index before `k` on an axis of length `n`, wrapping from `0` to `n - 1`.
pub open spec fn wrap_prev(k: int, n: int) -> int {
    if k == 0 {
        n - 1
    } else {
        k - 1
    }
}

/// The index after `k` on an axis of length `n`, wrapping from `n - 1` to `0`.
pub open spec fn wrap_next(k: int, n: int) -> int {
    if k == n - 1 {
        0
    } else {
        k + 1
    }
}

/// Why a lattice could not be made.
#[derive(Debug, Clone, Copy, PartialEq, Eq, Structural)]
pub enum LatticeError {
    /// An axis is shorter than two cells, so a cell would be its own neighbour.
    TooSmall,
    /// The cell count does not fit in `isize`.
    TooLarge,
}

/// A grid of spins with toroidal adjacency.
pub struct Lattice {
    n_x: usize,
    n_y: usize,
    cells: Grid,
}

impl Lattice {
    /// Number of rows.
    pub closed spec fn nx(&self) -> nat {
        self.n_x as nat
    }

    /// Number of columns.
    pub closed spec fn ny(&self) -> nat {
        self.n_y as nat
    }

    /// The spin at row `i`, column `j`.
    pub closed spec fn spin(&self, i: int, j: int) -> int {
        grid_cells(self.cells)[(i, j)] as int
    }

    /// Both axes hold at least two cells, the cell count fits in `isize`, and
    /// every cell holds `-1` or `+1`.
    pub closed spec fn wf(&self) -> bool {
        &&& 2 <= self.n_x
        &&& 2 <= self.n_y
        &&& self.n_x * self.n_y <= isize::MAX
        &&& grid_shape(self.cells) == (self.n_x as nat, self.n_y as nat)
        &&& forall|i: int, j: int|
            0 <= i < self.n_x && 0 <= j < self.n_y ==> #[trigger] self.spin(i, j) == 1
                || self.spin(i, j) == -1
    }

    /// `(i, j)` names a cell of this lattice.
    pub open spec fn in_bounds(&self, i: int, j: int) -> bool {
        0 <= i < self.nx() && 0 <= j < self.ny()
    }

    /// Sum of the spins of the four toroidal neighbours of `(i, j)`.
    pub open spec fn neighbor_sum_of(&self, i: int, j: int) -> int {
        self.spin(wrap_prev(i, self.nx() as int), j) + self.spin(wrap_next(i, self.nx() as int), j)
            + self.spin(i, wrap_prev(j, self.ny() as int)) + self.spin(
            i,
            wrap_next(j, self.ny() as int),
        )
    }

    /// The local energy of cell `(i, j)` with all couplings one.
    pub open spec fn energy_of(&self, i: int, j: int) -> int {
        -self.spin(i, j) * self.neighbor_sum_of(i, j)
    }

    /// `self` and `other` have the same shape and the same spins.
    pub open spec fn same_spins(&self, other: &Lattice) -> bool {
        &&& self.nx() == other.nx()
        &&& self.ny() == other.ny()
        &&& forall|p: int, q: int| #[trigger]
            self.in_bounds(p, q) ==> self.spin(p, q) == other.spin(p, q)
    }

    /// `self` is `before` with the spin at `(i, j)` negated and no other change.
    pub open spec fn is_flip_of(&self, before: &Lattice, i: int, j: int) -> bool {
        &&& self.nx() == before.nx()
        &&& self.ny() == before.ny()
        &&& self.spin(i, j) == -before.spin(i, j)
        &&& forall|p: int, q: int|
            #[trigger] self.in_bounds(p, q) && (p != i || q != j) ==> self.spin(p, q)
                == before.spin(p, q)
    }

    /// Every cell holds `+1`.
    pub open spec fn all_up(&self) -> bool {
        forall|p: int, q: int| #[trigger] self.in_bounds(p, q) ==> self.spin(p, q) == 1
    }

    /// A lattice of `n_x` rows and `n_y` columns with every spin `+1`.
    /// Axes shorter than two cells, and cell counts beyond `isize`, are refused.
    pub fn new(n_x: usize, n_y: usize) -> (r: Result<Lattice, LatticeError>)
        ensures
            n_x < 2 || n_y < 2 <==> r == Err::<Lattice, _>(LatticeError::TooSmall),
            (n_x >= 2 && n_y >= 2 && n_x * n_y > isize::MAX) <==> r == Err::<Lattice, _>(
                LatticeError::TooLarge,
            ),
            r is Ok <==> n_x >= 2 && n_y >= 2 && n_x * n_y <= isize::MAX,
            r is Ok ==> {
                let l = r->Ok_0;
                &&& l.wf()
                &&& l.nx() == n_x
                &&& l.ny() == n_y
                &&& l.all_up()
            },
    {
        if n_x < 2 || n_y < 2 {
            return Err(LatticeError::TooSmall);
        }
        match n_x.checked_mul(n_y) {
            Some(count) if count <= isize::MAX as usize => {},
            _ => {
                return Err(LatticeError::TooLarge);
            },
        }
        let cells = grid_of_ones(n_x, n_y);
        Ok(Lattice { n_x, n_y, cells })
    }

    /// Number of rows.
    pub fn n_x(&self) -> (r: usize)
        ensures
            r == self.nx(),
    {
        self.n_x
    }

    /// Number of columns.
    pub fn n_y(&self) -> (r: usize)
        ensures
            r == self.ny(),
    {
        self.n_y
    }

    /// The spin at `(i, j)`, always `-1` or `+1`.
    pub fn spin_at(&self, i: usize, j: usize) -> (r: i8)
        requires
            self.wf(),
            self.in_bounds(i as int, j as int),
        ensures
            r == self.spin(i as int, j as int),
            r == 1 || r == -1,
    {
        let r = grid_get(&self.cells, i, j);
        assert(r == self.spin(i as int, j as int));
        r
    }

    /// Sum of the four toroidal neighbours' spins of `(i, j)`.
    pub fn neighbor_sum(&self, i: usize, j: usize) -> (r: i8)
        requires
            self.wf(),
            self.in_bounds(i as int, j as int),
        ensures
            r == self.neighbor_sum_of(i as int, j as int),
            r == -4 || r == -2 || r == 0 || r == 2 || r == 4,
    {
        let n_x = self.n_x;
        let n_y = self.n_y;
        let up = if i == 0 { n_x - 1 } else { i - 1 };
        let down = if i == n_x - 1 { 0 } else { i + 1 };
        let left = if j == 0 { n_y - 1 } else { j - 1 };
        let right = if j == n_y - 1 { 0 } else { j + 1 };
        let a = self.spin_at(up, j);
        let b = self.spin_at(down, j);
        let c = self.spin_at(i, left);
        let d = self.spin_at(i, right);
        a + b + c + d
    }

    /// The local energy `-spin * neighbour_sum` of cell `(i, j)`.
    pub fn local_energy(&self, i: usize, j: usize) -> (r: i8)
        requires
            self.wf(),
            self.in_bounds(i as int, j as int),
        ensures
            r == self.energy_of(i as int, j as int),
            r == -4 || r == -2 || r == 0 || r == 2 || r == 4,
    {
        let s = self.spin_at(i, j);
        let n = self.neighbor_sum(i, j);
        if s == 1 {
            -n
        } else {
            n
        }
    }

    /// Negates the spin at `(i, j)`; every other cell keeps its spin.
    pub fn flip(&mut self, i: usize, j: usize)
        requires
            old(self).wf(),
            old(self).in_bounds(i as int, j as int),
        ensures
            final(self).wf(),
            final(self).is_flip_of(&*old(self), i as int, j as int),
    {
        let s = self.spin_at(i, j);
        grid_set(&mut self.cells, i, j, -s);
        assert forall|p: int, q: int|
            0 <= p < self.n_x && 0 <= q < self.n_y implies #[trigger] self.spin(p, q) == 1
            || self.spin(p, q) == -1 by {
            assert(old(self).spin(p, q) == 1 || old(self).spin(p, q) == -1);
        }
    }
}

/// A well-formed lattice has at least two cells on each axis, and its cell
/// count fits in `isize`.
pub proof fn lemma_dims(l: &Lattice)
    requires
        l.wf(),
    ensures
        l.nx() >= 2,
        l.ny() >= 2,
        l.nx() * l.ny() <= isize::MAX,
{
}

/// Every cell of a well-formed lattice holds `-1` or `+1`, and nothing else.
pub proof fn lemma_spins_are_unit(l: &Lattice)
    requires
        l.wf(),
    ensures
        forall|i: int, j: int| #[trigger]
            l.in_bounds(i, j) ==> l.spin(i, j) == 1 || l.spin(i, j) == -1,
{
    assert forall|i: int, j: int| #[trigger] l.in_bounds(i, j) implies l.spin(i, j) == 1 || l.spin(
        i,
        j,
    ) == -1 by {
        assert(l.spin(i, j) == 1 || l.spin(i, j) == -1);
    }
}

/// Flipping one spin negates that cell's local energy, since none of its
/// neighbours is the cell itself: the energies before and after sum to zero.
pub proof fn lemma_flip_negates_energy(before: &Lattice, after: &Lattice, i: int, j: int)
    requires
        before.wf(),
        before.in_bounds(i, j),
        after.is_flip_of(before, i, j),
    ensures
        after.energy_of(i, j) == -before.energy_of(i, j),
        before.energy_of(i, j) + after.energy_of(i, j) == 0,
{
    let nx = before.nx() as int;
    let ny = before.ny() as int;
    assert(after.in_bounds(wrap_prev(i, nx), j));
    assert(after.in_bounds(wrap_next(i, nx), j));
    assert(after.in_bounds(i, wrap_prev(j, ny)));
    assert(after.in_bounds(i, wrap_next(j, ny)));
    assert(after.neighbor_sum_of(i, j) == before.neighbor_sum_of(i, j));
    let s = before.spin(i, j);
    let n = before.neighbor_sum_of(i, j);
    assert(-(-s) * n == -(-s * n)) by (nonlinear_arith);
}

/// Adjacency wraps at every edge: the cell before row `0` is row `n_x - 1`,
/// the cell after row `n_x - 1` is row `0`, and likewise for columns.
pub proof fn lemma_wraparound(l: &Lattice)
    requires
        l.wf(),
    ensures
        wrap_prev(0, l.nx() as int) == l.nx() - 1,
        wrap_next(l.nx() - 1, l.nx() as int) == 0,
        wrap_prev(0, l.ny() as int) == l.ny() - 1,
        wrap_next(l.ny() - 1, l.ny() as int) == 0,
        forall|j: int|
            #![trigger l.neighbor_sum_of(0, j)]
            0 <= j < l.ny() ==> l.neighbor_sum_of(0, j) == l.spin(l.nx() - 1, j) + l.spin(1, j)
                + l.spin(0, wrap_prev(j, l.ny() as int)) + l.spin(0, wrap_next(j, l.ny() as int)),
        forall|j: int|
            #![trigger l.neighbor_sum_of(l.nx() - 1, j)]
            0 <= j < l.ny() ==> l.neighbor_sum_of(l.nx() - 1, j) == l.spin(l.nx() - 2, j) + l.spin(
                0,
                j,
            ) + l.spin(l.nx() - 1, wrap_prev(j, l.ny() as int)) + l.spin(
                l.nx() - 1,
                wrap_next(j, l.ny() as int),
            ),
{
}

} // verus!
