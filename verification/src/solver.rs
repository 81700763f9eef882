//! The electron gun simulation's grid bookkeeping: which points of the
//! potential grid are held fixed, what a solve is refused for, and how the
//! free points are numbered as the unknowns of the linear system.
//!
//! Grids are row-major with z as the row index and r as the column index:
//! the point `(i_r, i_z)` is at `i_z * n_r + i_r`.
use vstd::prelude::*;

verus! {

/// The index of the point `(i_r, i_z)` in a grid `n_r` points wide.
pub open spec fn idx_spec(n_r: nat, i_r: nat, i_z: nat) -> nat {
    i_z * n_r + i_r
}

/// The index of the point `(i_r, i_z)` in a grid `n_r` points wide.
pub fn grid_idx(n_r: usize, i_r: usize, i_z: usize) -> (r: usize)
    requires
        i_z * n_r + i_r <= usize::MAX,
    ensures
        r == idx_spec(n_r as nat, i_r as nat, i_z as nat),
{
    i_z * n_r + i_r
}

/// Whether a point's potential is solved for or held fixed.
#[derive(Clone, Copy, Debug, PartialEq, Eq, Structural)]
pub enum Cell {
    Free,
    Fixed,
}

/// Which points of an `n_r` by `n_z` grid are held fixed.
pub struct Mask {
    pub n_r: usize,
    pub n_z: usize,
    pub data: Vec<Cell>,
}

impl Mask {
    /// Whether the mask holds a cell for every point.
    pub open spec fn wf(&self) -> bool {
        self.data@.len() == self.n_r * self.n_z
    }

    /// The cell at `(i_r, i_z)`.
    pub open spec fn cell(&self, i_r: nat, i_z: nat) -> Cell {
        self.data@[idx_spec(self.n_r as nat, i_r, i_z) as int]
    }

    /// A mask of `n_r` by `n_z` free points.
    pub fn new(n_r: usize, n_z: usize) -> (r: Self)
        requires
            n_r * n_z <= usize::MAX,
        ensures
            r.wf(),
            r.n_r == n_r,
            r.n_z == n_z,
            forall|i: int| 0 <= i < r.data@.len() ==> r.data@[i] == Cell::Free,
    {
        let n = n_r * n_z;
        let mut data: Vec<Cell> = Vec::new();
        let mut i: usize = 0;
        while i < n
            invariant
                i <= n,
                data@.len() == i,
                forall|j: int| 0 <= j < i ==> data@[j] == Cell::Free,
            decreases n - i,
        {
            data.push(Cell::Free);
            i += 1;
        }
        Mask { n_r, n_z, data }
    }

    /// The index of the point `(i_r, i_z)`.
    pub fn idx(&self, i_r: usize, i_z: usize) -> (r: usize)
        requires
            i_z * self.n_r + i_r <= usize::MAX,
        ensures
            r == idx_spec(self.n_r as nat, i_r as nat, i_z as nat),
    {
        grid_idx(self.n_r, i_r, i_z)
    }
}

/// Why a solve was refused.
#[derive(Debug, PartialEq, Eq)]
pub enum SolverError {
    /// The grid and the mask have different sizes, `(n_r, n_z)` each.
    DimensionMismatch { grid: (usize, usize), mask: (usize, usize) },
    /// The grid has fewer than 3 points in a direction.
    GridTooSmall { n_r: usize, n_z: usize },
    /// An outer boundary point isn't fixed.
    InvalidOuterBoundary { i_r: usize, i_z: usize },
    /// The linear system couldn't be solved.
    FactorisationFailed(String),
}

/// The first point on the bottom or top row, from column `i_r` on, that
/// isn't fixed: each column's bottom point, then its top point.
pub open spec fn row_violation(mask: &Mask, i_r: nat) -> Option<(nat, nat)>
    decreases mask.n_r - i_r,
{
    if i_r >= mask.n_r {
        None
    } else if mask.cell(i_r, 0) != Cell::Fixed {
        Some((i_r, 0))
    } else if mask.cell(i_r, (mask.n_z - 1) as nat) != Cell::Fixed {
        Some((i_r, (mask.n_z - 1) as nat))
    } else {
        row_violation(mask, i_r + 1)
    }
}

/// The first point of the outer radial column, from row `i_z` on, that
/// isn't fixed.
pub open spec fn column_violation(mask: &Mask, i_z: nat) -> Option<(nat, nat)>
    decreases mask.n_z - i_z,
{
    if i_z >= mask.n_z {
        None
    } else if mask.cell((mask.n_r - 1) as nat, i_z) != Cell::Fixed {
        Some(((mask.n_r - 1) as nat, i_z))
    } else {
        column_violation(mask, i_z + 1)
    }
}

/// Whether a solve on an `n_r` by `n_z` grid with `mask` is accepted, or
/// the error it's refused with, in the order they're checked: the grid and
/// the mask must be the same size, have at least 3 points in each
/// direction, and every outer boundary point (the top and bottom rows and
/// the outer radial column) must be fixed.
pub open spec fn check_spec(n_r: usize, n_z: usize, mask: &Mask) -> Result<(), SolverError> {
    if n_r != mask.n_r || n_z != mask.n_z {
        Err(SolverError::DimensionMismatch { grid: (n_r, n_z), mask: (mask.n_r, mask.n_z) })
    } else if n_r < 3 || n_z < 3 {
        Err(SolverError::GridTooSmall { n_r, n_z })
    } else {
        match row_violation(mask, 0) {
            Some((i_r, i_z)) => Err(SolverError::InvalidOuterBoundary { i_r: i_r as usize, i_z: i_z as usize }),
            None => match column_violation(mask, 0) {
                Some((i_r, i_z)) => Err(SolverError::InvalidOuterBoundary { i_r: i_r as usize, i_z: i_z as usize }),
                None => Ok(()),
            },
        }
    }
}

/// Checks that a solve on an `n_r` by `n_z` grid with `mask` can go ahead.
pub fn check_inputs(n_r: usize, n_z: usize, mask: &Mask) -> (r: Result<(), SolverError>)
    requires
        mask.wf(),
    ensures
        r == check_spec(n_r, n_z, mask),
{
    if n_r != mask.n_r || n_z != mask.n_z {
        return Err(SolverError::DimensionMismatch { grid: (n_r, n_z), mask: (mask.n_r, mask.n_z) });
    }
    if n_r < 3 || n_z < 3 {
        return Err(SolverError::GridTooSmall { n_r, n_z });
    }
    let total = mask.data.len();
    let mut i_r: usize = 0;
    while i_r < n_r
        invariant
            total == n_r * n_z,
            i_r <= n_r,
            n_r == mask.n_r,
            n_z == mask.n_z,
            n_r >= 3,
            n_z >= 3,
            mask.wf(),
            row_violation(mask, 0) == row_violation(mask, i_r as nat),
        decreases n_r - i_r,
    {
        assert((n_z - 1) * n_r + i_r < n_r * n_z) by (nonlinear_arith)
            requires
                i_r < n_r,
                n_z >= 1,
        ;
        let bottom = mask.idx(i_r, 0);
        if mask.data[bottom] != Cell::Fixed {
            return Err(SolverError::InvalidOuterBoundary { i_r, i_z: 0 });
        }
        let top = mask.idx(i_r, n_z - 1);
        if mask.data[top] != Cell::Fixed {
            return Err(SolverError::InvalidOuterBoundary { i_r, i_z: n_z - 1 });
        }
        i_r += 1;
    }
    let mut i_z: usize = 0;
    while i_z < n_z
        invariant
            total == n_r * n_z,
            i_z <= n_z,
            n_r == mask.n_r,
            n_z == mask.n_z,
            n_r >= 3,
            n_z >= 3,
            mask.wf(),
            row_violation(mask, 0) is None,
            column_violation(mask, 0) == column_violation(mask, i_z as nat),
        decreases n_z - i_z,
    {
        assert(i_z * n_r + (n_r - 1) < n_r * n_z) by (nonlinear_arith)
            requires
                i_z < n_z,
                n_r >= 1,
        ;
        let edge = mask.idx(n_r - 1, i_z);
        if mask.data[edge] != Cell::Fixed {
            return Err(SolverError::InvalidOuterBoundary { i_r: n_r - 1, i_z });
        }
        i_z += 1;
    }
    Ok(())
}

/// The number of free points among `cells`.
pub open spec fn free_count(cells: Seq<Cell>) -> nat
    decreases cells.len(),
{
    if cells.len() == 0 {
        0
    } else {
        free_count(cells.drop_last()) + if cells.last() == Cell::Free {
            1nat
        } else {
            0nat
        }
    }
}

/// No more points are free than there are points.
proof fn lemma_free_count_le(cells: Seq<Cell>)
    ensures
        free_count(cells) <= cells.len(),
    decreases cells.len(),
{
    if cells.len() > 0 {
        lemma_free_count_le(cells.drop_last());
    }
}

/// A longer prefix holds at least as many free points.
proof fn lemma_free_count_monotonic(cells: Seq<Cell>, i: int, j: int)
    requires
        0 <= i <= j <= cells.len(),
    ensures
        free_count(cells.take(i)) <= free_count(cells.take(j)),
    decreases j - i,
{
    if i < j {
        lemma_free_count_monotonic(cells, i, j - 1);
        assert(cells.take(j).drop_last() =~= cells.take(j - 1));
    }
}

/// Numbers the free points of `mask` in index order, as the unknowns of the
/// linear system: for each point, its number if it's free; and for each
/// number, the index of its point.
pub fn free_points(mask: &Mask) -> (r: (Vec<Option<usize>>, Vec<usize>))
    requires
        mask.wf(),
    ensures
        r.0@.len() == mask.data@.len(),
        r.1@.len() == free_count(mask.data@),
        forall|f: int|
            0 <= f < mask.data@.len() ==> (#[trigger] r.0@[f] == if mask.data@[f] == Cell::Free {
                Some(free_count(mask.data@.take(f)) as usize)
            } else {
                None::<usize>
            }),
        forall|f: int|
            0 <= f < mask.data@.len() && mask.data@[f] == Cell::Free ==> r.1@[free_count(
                mask.data@.take(f),
            ) as int] == f,
{
    let n = mask.data.len();
    let mut free_idx: Vec<Option<usize>> = Vec::new();
    let mut points: Vec<usize> = Vec::new();
    let mut flat: usize = 0;
    while flat < n
        invariant
            flat <= n,
            n == mask.data@.len(),
            free_idx@.len() == flat,
            points@.len() == free_count(mask.data@.take(flat as int)),
            points@.len() <= flat,
            forall|f: int|
                0 <= f < flat ==> (#[trigger] free_idx@[f] == if mask.data@[f] == Cell::Free {
                    Some(free_count(mask.data@.take(f)) as usize)
                } else {
                    None::<usize>
                }),
            forall|f: int|
                0 <= f < flat && mask.data@[f] == Cell::Free ==> points@[free_count(
                    mask.data@.take(f),
                ) as int] == f,
        decreases n - flat,
    {
        assert(mask.data@.take(flat + 1).drop_last() =~= mask.data@.take(flat as int));
        if mask.data[flat] == Cell::Free {
            free_idx.push(Some(points.len()));
            let ghost before = points@;
            points.push(flat);
            assert forall|f: int|
                0 <= f < flat && mask.data@[f] == Cell::Free implies points@[free_count(
                    mask.data@.take(f),
                ) as int] == f by {
                lemma_free_count_monotonic(mask.data@, f + 1, flat as int);
                assert(mask.data@.take(f + 1).drop_last() =~= mask.data@.take(f));
                assert(points@[free_count(mask.data@.take(f)) as int] == before[free_count(mask.data@.take(f)) as int]);
            }
        } else {
            free_idx.push(None);
        }
        flat += 1;
        proof {
            lemma_free_count_le(mask.data@.take(flat as int));
        }
    }
    assert(mask.data@.take(n as int) =~= mask.data@);
    (free_idx, points)
}

} // verus!

verus! {

/// Whether `(i_r, i_z)` is on the outer boundary of `mask`'s grid: the
/// bottom or top row, or the outer radial column.
pub open spec fn on_outer_boundary(mask: &Mask, i_r: nat, i_z: nat) -> bool {
    i_z == 0 || i_z == mask.n_z - 1 || i_r == mask.n_r - 1
}

/// The point at index `f` of a grid `n_r` points wide: `(i_r, i_z)`.
pub open spec fn point_of(n_r: nat, f: nat) -> (nat, nat) {
    (f % n_r, f / n_r)
}

impl Mask {
    /// Marks every outer boundary point fixed (the far-field Dirichlet
    /// condition), leaving the other points as they are.
    pub fn fix_outer_boundary(&mut self)
        requires
            old(self).wf(),
            old(self).n_r >= 1,
            old(self).n_z >= 1,
        ensures
            final(self).wf(),
            final(self).n_r == old(self).n_r,
            final(self).n_z == old(self).n_z,
            forall|i_r: nat, i_z: nat|
                i_r < final(self).n_r && i_z < final(self).n_z ==> #[trigger] final(self).cell(i_r, i_z) == if on_outer_boundary(
                    old(self),
                    i_r,
                    i_z,
                ) {
                    Cell::Fixed
                } else {
                    old(self).cell(i_r, i_z)
                },
    {
        let n_r = self.n_r;
        let n_z = self.n_z;
        let total = self.data.len();
        let ghost original = self.data@;
        let mut i_z: usize = 0;
        while i_z < n_z
            invariant
                i_z <= n_z,
                n_r == self.n_r,
                n_z == self.n_z,
                n_r >= 1,
                total == self.data@.len(),
                total == n_r * n_z,
                forall|f: int|
                    0 <= f < total ==> #[trigger] self.data@[f] == if f / (n_r as int) < i_z && on_outer_boundary(
                        self,
                        (f % (n_r as int)) as nat,
                        (f / (n_r as int)) as nat,
                    ) {
                        Cell::Fixed
                    } else {
                        original[f]
                    },
            decreases n_z - i_z,
        {
            let mut i_r: usize = 0;
            while i_r < n_r
                invariant
                    i_z < n_z,
                    i_r <= n_r,
                    n_r == self.n_r,
                    n_z == self.n_z,
                    n_r >= 1,
                    total == self.data@.len(),
                    total == n_r * n_z,
                    forall|f: int|
                        0 <= f < total ==> #[trigger] self.data@[f] == if (f / (n_r as int) < i_z || (f
                            / (n_r as int) == i_z && f % (n_r as int) < i_r)) && on_outer_boundary(
                            self,
                            (f % (n_r as int)) as nat,
                            (f / (n_r as int)) as nat,
                        ) {
                            Cell::Fixed
                        } else {
                            original[f]
                        },
                decreases n_r - i_r,
            {
                assert(i_z * n_r + i_r < n_r * n_z) by (nonlinear_arith)
                    requires
                        i_r < n_r,
                        i_z < n_z,
                ;
                let flat = i_z * n_r + i_r;
                proof {
                    vstd::arithmetic::div_mod::lemma_fundamental_div_mod_converse(
                        flat as int,
                        n_r as int,
                        i_z as int,
                        i_r as int,
                    );
                }
                let ghost before = self.data@;
                if i_z == 0 || i_z == n_z - 1 || i_r == n_r - 1 {
                    self.data.set(flat, Cell::Fixed);
                }
                proof {
                    let n = n_r as int;
                    assert forall|f: int| 0 <= f < total implies #[trigger] self.data@[f] == if (f / n < i_z
                        || (f / n == i_z && f % n < i_r + 1)) && on_outer_boundary(
                        self,
                        (f % n) as nat,
                        (f / n) as nat,
                    ) {
                        Cell::Fixed
                    } else {
                        original[f]
                    } by {
                        vstd::arithmetic::div_mod::lemma_fundamental_div_mod(f, n);
                        if f != flat {
                            assert(self.data@[f] == before[f]);
                            if f / n == i_z && f % n == i_r {
                                vstd::arithmetic::mul::lemma_mul_is_commutative(n, i_z as int);
                                assert(f == flat);
                            }
                        }
                    }
                }
                i_r += 1;
            }
            proof {
                let n = n_r as int;
                assert forall|f: int| 0 <= f < total implies #[trigger] self.data@[f] == if f / n < i_z + 1
                    && on_outer_boundary(self, (f % n) as nat, (f / n) as nat) {
                    Cell::Fixed
                } else {
                    original[f]
                } by {
                    vstd::arithmetic::div_mod::lemma_mod_pos_bound(f, n);
                }
            }
            i_z += 1;
        }
        assert forall|i_r: nat, i_z: nat|
            i_r < self.n_r && i_z < self.n_z implies #[trigger] self.cell(i_r, i_z) == if on_outer_boundary(
            self,
            i_r,
            i_z,
        ) {
            Cell::Fixed
        } else {
            original[idx_spec(n_r as nat, i_r, i_z) as int]
        } by {
            let f = idx_spec(n_r as nat, i_r, i_z) as int;
            assert(f < n_r * n_z) by (nonlinear_arith)
                requires
                    f == i_z * n_r + i_r,
                    i_r < n_r,
                    i_z < n_z,
            ;
            vstd::arithmetic::div_mod::lemma_fundamental_div_mod_converse(f, n_r as int, i_z as int, i_r as int);
        }
    }
}

/// A mask whose outer boundary points are all fixed passes the boundary
/// check.
pub proof fn lemma_fixed_boundary_passes(mask: &Mask)
    requires
        mask.wf(),
        mask.n_r >= 3,
        mask.n_z >= 3,
        forall|i_r: nat, i_z: nat|
            i_r < mask.n_r && i_z < mask.n_z && on_outer_boundary(mask, i_r, i_z) ==> #[trigger] mask.cell(i_r, i_z)
                == Cell::Fixed,
    ensures
        check_spec(mask.n_r, mask.n_z, mask) == Ok::<(), SolverError>(()),
{
    lemma_rows_pass(mask, 0);
    lemma_column_passes(mask, 0);
}

proof fn lemma_rows_pass(mask: &Mask, i_r: nat)
    requires
        mask.n_z >= 1,
        forall|i_r: nat, i_z: nat|
            i_r < mask.n_r && i_z < mask.n_z && on_outer_boundary(mask, i_r, i_z) ==> #[trigger] mask.cell(i_r, i_z)
                == Cell::Fixed,
    ensures
        row_violation(mask, i_r) is None,
    decreases mask.n_r - i_r,
{
    if i_r < mask.n_r {
        assert(mask.cell(i_r, 0) == Cell::Fixed);
        assert(mask.cell(i_r, (mask.n_z - 1) as nat) == Cell::Fixed);
        lemma_rows_pass(mask, i_r + 1);
    }
}

proof fn lemma_column_passes(mask: &Mask, i_z: nat)
    requires
        mask.n_r >= 1,
        forall|i_r: nat, i_z: nat|
            i_r < mask.n_r && i_z < mask.n_z && on_outer_boundary(mask, i_r, i_z) ==> #[trigger] mask.cell(i_r, i_z)
                == Cell::Fixed,
    ensures
        column_violation(mask, i_z) is None,
    decreases mask.n_z - i_z,
{
    if i_z < mask.n_z {
        assert(mask.cell((mask.n_r - 1) as nat, i_z) == Cell::Fixed);
        lemma_column_passes(mask, i_z + 1);
    }
}

/// The mask as bytes for the UI's overlays: 0 for a free point, 1 for a
/// fixed one.
pub fn mask_bytes(mask: &Mask) -> (r: Vec<u8>)
    ensures
        r@.len() == mask.data@.len(),
        forall|i: int| 0 <= i < r@.len() ==> #[trigger] r@[i] == if mask.data@[i] == Cell::Free {
            0u8
        } else {
            1u8
        },
{
    let mut r: Vec<u8> = Vec::new();
    let mut i: usize = 0;
    while i < mask.data.len()
        invariant
            i <= mask.data@.len(),
            r@.len() == i,
            forall|j: int| 0 <= j < i ==> #[trigger] r@[j] == if mask.data@[j] == Cell::Free {
                0u8
            } else {
                1u8
            },
        decreases mask.data@.len() - i,
    {
        if mask.data[i] == Cell::Free {
            r.push(0);
        } else {
            r.push(1);
        }
        i += 1;
    }
    r
}

} // verus!

verus! {

/// One term of a free point's equation: a neighbouring point, and its
/// weight as a numerator over the stencil's denominator.
#[derive(Clone, Copy, Debug, PartialEq, Eq, Structural)]
pub struct Coupling {
    pub neighbour: usize,
    pub weight: u64,
}

/// The symmetry-weighted finite-difference equation of one point, scaled to
/// whole numbers: the point itself carries `-centre / denominator`, and each
/// neighbour `weight / denominator`.
#[derive(Clone, Debug, PartialEq, Eq)]
pub struct Stencil {
    pub denominator: u64,
    pub centre: u64,
    pub neighbours: Vec<Coupling>,
}

/// The stencil of the point `(i_r, i_z)` in a grid `n_r` points wide, as
/// `(denominator, centre, [(neighbour, weight)])`.
///
/// On the axis (`i_r = 0`) the radial term is taken by symmetry: the point
/// carries −6/8, the point beside it 1/2 and the points above and below 1/8
/// each. Elsewhere the equation is weighted by `i_r`: the point carries
/// −4·i_r, the outer and inner points i_r + ½ and i_r − ½, and the points
/// above and below i_r each.
pub open spec fn stencil_spec(n_r: nat, i_r: nat, i_z: nat) -> (nat, nat, Seq<(nat, nat)>) {
    if i_r == 0 {
        (8, 6, seq![
            (idx_spec(n_r, 1, i_z), 4nat),
            (idx_spec(n_r, 0, (i_z + 1) as nat), 1nat),
            (idx_spec(n_r, 0, (i_z - 1) as nat), 1nat),
        ])
    } else {
        (2, 8 * i_r, seq![
            (idx_spec(n_r, i_r + 1, i_z), 2 * i_r + 1),
            (idx_spec(n_r, (i_r - 1) as nat, i_z), (2 * i_r - 1) as nat),
            (idx_spec(n_r, i_r, i_z + 1), 2 * i_r),
            (idx_spec(n_r, i_r, (i_z - 1) as nat), 2 * i_r),
        ])
    }
}

/// The sum of the weights of `terms`.
pub open spec fn weight_sum(terms: Seq<(nat, nat)>) -> nat
    decreases terms.len(),
{
    if terms.len() == 0 {
        0
    } else {
        weight_sum(terms.drop_last()) + terms.last().1
    }
}

/// The stencil of the point `(i_r, i_z)`, which is a free point of a grid
/// `n_r` by `n_z` whose outer boundary is fixed, so it has every neighbour.
/// Its neighbours' weights add up to its own, so a potential that is the
/// same everywhere solves it.
pub fn stencil(n_r: usize, n_z: usize, i_r: usize, i_z: usize) -> (r: Stencil)
    requires
        i_r + 1 < n_r,
        1 <= i_z,
        i_z + 1 < n_z,
        n_r * n_z <= usize::MAX,
        8 * i_r <= u64::MAX,
    ensures
        ({
            let (d, c, terms) = stencil_spec(n_r as nat, i_r as nat, i_z as nat);
            &&& r.denominator == d
            &&& r.centre == c
            &&& r.neighbours@.len() == terms.len()
            &&& forall|j: int| 0 <= j < terms.len() ==> (#[trigger] r.neighbours@[j]).neighbour == terms[j].0
                && r.neighbours@[j].weight == terms[j].1
        }),
        weight_sum(stencil_spec(n_r as nat, i_r as nat, i_z as nat).2) == stencil_spec(
            n_r as nat,
            i_r as nat,
            i_z as nat,
        ).1,
        i_r > 0 ==> r.denominator == 2 && r.centre == 8 * i_r && r.neighbours@.len() == 4
            && r.neighbours@[0].weight == 2 * i_r + 1 && r.neighbours@[1].weight == 2 * i_r - 1
            && r.neighbours@[2].weight == 2 * i_r && r.neighbours@[3].weight == 2 * i_r
            && r.neighbours@[0].neighbour == i_z * n_r + i_r + 1
            && r.neighbours@[1].neighbour == i_z * n_r + i_r - 1
            && r.neighbours@[2].neighbour == (i_z + 1) * n_r + i_r
            && r.neighbours@[3].neighbour == (i_z - 1) * n_r + i_r,
        i_r == 0 ==> r.denominator == 8 && r.centre == 6 && r.neighbours@.len() == 3
            && r.neighbours@[0].weight == 4 && r.neighbours@[1].weight == 1
            && r.neighbours@[2].weight == 1 && r.neighbours@[0].neighbour == i_z * n_r + 1
            && r.neighbours@[1].neighbour == (i_z + 1) * n_r
            && r.neighbours@[2].neighbour == (i_z - 1) * n_r,
{
    proof {
        assert((i_z + 1) * n_r + i_r < n_r * n_z) by (nonlinear_arith)
            requires
                i_r + 1 < n_r,
                i_z + 1 < n_z,
        ;
        assert(i_z * n_r + i_r + 1 <= (i_z + 1) * n_r + i_r) by (nonlinear_arith)
            requires
                i_r + 1 < n_r,
        ;
        assert((i_z - 1) * n_r + i_r <= (i_z + 1) * n_r + i_r) by (nonlinear_arith)
            requires
                1 <= i_z,
        ;
        assert(i_z * n_r + i_r <= (i_z + 1) * n_r + i_r) by (nonlinear_arith);
    }
    let ghost terms = stencil_spec(n_r as nat, i_r as nat, i_z as nat).2;
    if i_r == 0 {
        let neighbours = vec![
            Coupling { neighbour: grid_idx(n_r, 1, i_z), weight: 4 },
            Coupling { neighbour: grid_idx(n_r, 0, i_z + 1), weight: 1 },
            Coupling { neighbour: grid_idx(n_r, 0, i_z - 1), weight: 1 },
        ];
        proof {
            reveal_with_fuel(weight_sum, 4);
            assert(terms.drop_last().drop_last().drop_last() =~= Seq::<(nat, nat)>::empty());
        }
        Stencil { denominator: 8, centre: 6, neighbours }
    } else {
        let w = 2 * i_r as u64;
        let neighbours = vec![
            Coupling { neighbour: grid_idx(n_r, i_r + 1, i_z), weight: w + 1 },
            Coupling { neighbour: grid_idx(n_r, i_r - 1, i_z), weight: w - 1 },
            Coupling { neighbour: grid_idx(n_r, i_r, i_z + 1), weight: w },
            Coupling { neighbour: grid_idx(n_r, i_r, i_z - 1), weight: w },
        ];
        proof {
            reveal_with_fuel(weight_sum, 5);
            assert(terms.drop_last().drop_last().drop_last().drop_last() =~= Seq::<(nat, nat)>::empty());
        }
        Stencil { denominator: 2, centre: 4 * w, neighbours }
    }
}

/// The stencil is the cylindrical Laplacian weighted by the radius index
/// `i`: off the axis, over a denominator of 2, the point carries −4·i, the
/// outer neighbour i + ½, the inner one i − ½, and the points above and
/// below i each, at the points one column out, one column in, one row up
/// and one row down; on the axis, over 8, the point carries −6, the point
/// beside it 4 and the points above and below 1 each.
pub proof fn lemma_stencil_weights(n_r: nat, i_r: nat, i_z: nat)
    requires
        i_z >= 1,
    ensures
        ({
            let (d, c, t) = stencil_spec(n_r, i_r, i_z);
            &&& i_r > 0 ==> {
                &&& d == 2 && c == 8 * i_r && t.len() == 4
                &&& t[0].0 == i_z * n_r + i_r + 1 && t[0].1 == 2 * i_r + 1
                &&& t[1].0 == i_z * n_r + i_r - 1 && t[1].1 == 2 * i_r - 1
                &&& t[2].0 == (i_z + 1) * n_r + i_r && t[2].1 == 2 * i_r
                &&& t[3].0 == (i_z - 1) * n_r + i_r && t[3].1 == 2 * i_r
            }
            &&& i_r == 0 ==> {
                &&& d == 8 && c == 6 && t.len() == 3
                &&& t[0].0 == i_z * n_r + 1 && t[0].1 == 4
                &&& t[1].0 == (i_z + 1) * n_r && t[1].1 == 1
                &&& t[2].0 == (i_z - 1) * n_r && t[2].1 == 1
            }
        }),
{
}

} // verus!
