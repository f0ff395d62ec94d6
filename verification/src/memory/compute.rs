//! The capability matrix of the compute region, and its read coordination.
//!
//! The matrix has no lock. A writer opens a write window before it writes
//! the matrix and closes it when done; while the window is open, readers are
//! refused a view of the matrix and wait for the window to close. The
//! matrix holds up to `EMBEDDING_MAX_APPS` rows of `EMBEDDING_DIM` values,
//! each the bit pattern of an IEEE single-precision number, row after row.

use vstd::prelude::*;

verus! {

/// Values per matrix row.
pub const EMBEDDING_DIM: usize = 512;

/// Rows the matrix has room for.
pub const EMBEDDING_MAX_APPS: usize = 1000;

/// Bytes per matrix value.
pub const MATRIX_VALUE_BYTES: usize = 4;

/// Values the matrix has room for.
pub const MATRIX_VALUES: usize = 512000;

/// Bytes the matrix has room for.
pub open spec fn matrix_capacity_bytes() -> int {
    EMBEDDING_MAX_APPS * EMBEDDING_DIM * MATRIX_VALUE_BYTES
}

/// The capability matrix and whether a write window is open on it.
#[derive(Debug)]
pub struct ComputeRegion {
    matrix: Vec<u32>,
    write_in_progress: bool,
}

impl ComputeRegion {
    /// The matrix values, row after row.
    pub closed spec fn spec_matrix(&self) -> Seq<u32> {
        self.matrix@
    }

    /// Whether a write window is open.
    pub closed spec fn spec_writing(&self) -> bool {
        self.write_in_progress
    }

    /// The matrix has room for every row.
    pub open spec fn wf(&self) -> bool {
        self.spec_matrix().len() == MATRIX_VALUES
    }

    /// A zeroed matrix with no write window open.
    pub fn new() -> (r: Self)
        ensures
            r.wf(),
            r.spec_matrix() == Seq::new(MATRIX_VALUES as nat, |i: int| 0u32),
            !r.spec_writing(),
    {
        let mut matrix: Vec<u32> = Vec::new();
        let mut i: usize = 0;
        while i < MATRIX_VALUES
            invariant
                i <= MATRIX_VALUES,
                matrix@ == Seq::new(i as nat, |k: int| 0u32),
            decreases MATRIX_VALUES - i,
        {
            matrix.push(0);
            assert(matrix@ =~= Seq::new((i + 1) as nat, |k: int| 0u32));
            i = i + 1;
        }
        ComputeRegion { matrix, write_in_progress: false }
    }

    /// Opens a write window; returns the bytes the writer may fill.
    pub fn begin_matrix_write(&mut self) -> (max_bytes: usize)
        ensures
            final(self).spec_writing(),
            final(self).spec_matrix() == old(self).spec_matrix(),
            max_bytes == matrix_capacity_bytes(),
    {
        self.write_in_progress = true;
        EMBEDDING_MAX_APPS * EMBEDDING_DIM * MATRIX_VALUE_BYTES
    }

    /// Writes `num_apps` rows of `dim` values from `data` at the start of
    /// the matrix; the rest of the matrix is unchanged.
    pub fn write_rows(&mut self, data: &[u32], num_apps: usize, dim: usize)
        requires
            old(self).wf(),
            old(self).spec_writing(),
            num_apps * dim * MATRIX_VALUE_BYTES <= matrix_capacity_bytes(),
            num_apps * dim <= data@.len(),
        ensures
            final(self).wf(),
            final(self).spec_writing(),
            final(self).spec_matrix() == data@.subrange(0, num_apps * dim) + old(
                self,
            ).spec_matrix().subrange(num_apps * dim, MATRIX_VALUES as int),
    {
        let n = num_apps * dim;
        let mut i: usize = 0;
        while i < n
            invariant
                n == num_apps * dim,
                n <= MATRIX_VALUES,
                n <= data@.len(),
                i <= n,
                self.write_in_progress,
                self.matrix@ == data@.subrange(0, i as int) + old(self).matrix@.subrange(
                    i as int,
                    MATRIX_VALUES as int,
                ),
                self.matrix@.len() == MATRIX_VALUES,
                old(self).matrix@.len() == MATRIX_VALUES,
            decreases n - i,
        {
            self.matrix.set(i, data[i]);
            assert(self.matrix@ =~= data@.subrange(0, i + 1) + old(self).matrix@.subrange(
                i + 1,
                MATRIX_VALUES as int,
            ));
            i = i + 1;
        }
    }

    /// Closes the write window.
    pub fn end_matrix_write(&mut self)
        ensures
            !final(self).spec_writing(),
            final(self).spec_matrix() == old(self).spec_matrix(),
    {
        self.write_in_progress = false;
    }

    /// Whether a write window is open.
    pub fn is_writing(&self) -> (r: bool)
        ensures
            r == self.spec_writing(),
    {
        self.write_in_progress
    }

    /// A view of the matrix with its live rows and values per row; `None`
    /// while a write window is open.
    pub fn matrix_slice(&self, live_app_count: u32) -> (r: Option<(&[u32], usize, usize)>)
        ensures
            self.spec_writing() ==> r is None,
            !self.spec_writing() ==> (r matches Some((s, rows, dim)) && s@ == self.spec_matrix()
                && rows == live_app_count && dim == EMBEDDING_DIM),
    {
        if self.write_in_progress {
            None
        } else {
            Some((self.matrix.as_slice(), live_app_count as usize, EMBEDDING_DIM))
        }
    }
}

/// Whether `num_apps` rows of `dim` values fit in `max_bytes` bytes.
pub fn rows_fit(num_apps: usize, dim: usize, max_bytes: usize) -> (r: bool)
    ensures
        r == (num_apps * dim * MATRIX_VALUE_BYTES <= max_bytes),
{
    proof {
        assert(num_apps * dim <= (u64::MAX as int) * (u64::MAX as int)) by (nonlinear_arith)
            requires
                num_apps <= u64::MAX,
                dim <= u64::MAX,
        ;
    }
    let values: u128 = num_apps as u128 * dim as u128;
    values <= (max_bytes / MATRIX_VALUE_BYTES) as u128
}

} // verus!
