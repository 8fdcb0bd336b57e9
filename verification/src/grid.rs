//! Thread grids: how the work items of a compute pass are grouped.

use crate::error::MpsError;
use vstd::prelude::*;

verus! {

/// Threads in one group of an element-wise pass.
pub const ELEMENTWISE_GROUP_WIDTH: u64 = 256;

/// Edge of the square thread group of a matrix pass.
pub const MATRIX_GROUP_EDGE: u64 = 16;

/// An extent in three dimensions, counted in threads or in thread groups.
#[derive(Clone, Copy, Debug, PartialEq, Eq, Structural)]
pub struct Size {
    pub width: u64,
    pub height: u64,
    pub depth: u64,
}

impl Size {
    /// True when the extent holds nothing: one of its dimensions is zero.
    pub open spec fn is_empty(self) -> bool {
        self.width == 0 || self.height == 0 || self.depth == 0
    }

    /// The extent with these three dimensions.
    pub fn new(width: u64, height: u64, depth: u64) -> (s: Size)
        ensures
            s == (Size { width, height, depth }),
    {
        Size { width, height, depth }
    }
}

/// The least number of groups of `width` items that hold `n` items.
pub open spec fn groups_needed(n: nat, width: nat) -> nat
    recommends
        width > 0,
{
    ((n + width - 1) / (width as int)) as nat
}

/// The launch configuration of one compute pass: the shape of a thread
/// group, and how many groups are launched along each dimension.
#[derive(Clone, Copy, Debug, PartialEq, Eq, Structural)]
pub struct ThreadGrid {
    pub threads_per_group: Size,
    pub groups: Size,
}

impl ThreadGrid {
    /// The grid of an element-wise pass over `n` elements.
    pub open spec fn elementwise_spec(n: nat) -> ThreadGrid {
        ThreadGrid {
            threads_per_group: Size { width: ELEMENTWISE_GROUP_WIDTH, height: 1, depth: 1 },
            groups: Size {
                width: groups_needed(n, ELEMENTWISE_GROUP_WIDTH as nat) as u64,
                height: 1,
                depth: 1,
            },
        }
    }

    /// The grid of a matrix product with `m` rows and `k` columns in its
    /// result. Each dimension gets a whole group edge more groups than it has
    /// elements, which is more than the product needs and never too few.
    pub open spec fn matmul_spec(m: nat, k: nat) -> ThreadGrid {
        ThreadGrid {
            threads_per_group: Size {
                width: MATRIX_GROUP_EDGE,
                height: MATRIX_GROUP_EDGE,
                depth: 1,
            },
            groups: Size {
                width: (m + MATRIX_GROUP_EDGE) as u64,
                height: (k + MATRIX_GROUP_EDGE) as u64,
                depth: 1,
            },
        }
    }

    /// The grid of a reduction: one thread walks the whole input.
    pub open spec fn reduction_spec() -> ThreadGrid {
        ThreadGrid {
            threads_per_group: Size { width: 1, height: 1, depth: 1 },
            groups: Size { width: 1, height: 1, depth: 1 },
        }
    }

    /// True when the grid launches no thread at all.
    pub open spec fn is_empty(self) -> bool {
        self.threads_per_group.is_empty() || self.groups.is_empty()
    }

    /// True when the grid has a thread for every point of a domain of
    /// `width` by `height` points.
    pub open spec fn covers(self, width: nat, height: nat) -> bool {
        &&& self.groups.width * self.threads_per_group.width >= width
        &&& self.groups.height * self.threads_per_group.height >= height
        &&& self.groups.depth * self.threads_per_group.depth >= 1
    }

    /// The grid of an element-wise pass over `n` elements: groups of 256
    /// threads in a row, as few as hold `n` threads.
    pub fn elementwise(n: usize) -> (g: ThreadGrid)
        ensures
            g == Self::elementwise_spec(n as nat),
    {
        let whole: u64 = (n as u64) / ELEMENTWISE_GROUP_WIDTH;
        let partial: u64 = if (n as u64) % ELEMENTWISE_GROUP_WIDTH == 0 {
            0
        } else {
            1
        };
        ThreadGrid {
            threads_per_group: Size::new(ELEMENTWISE_GROUP_WIDTH, 1, 1),
            groups: Size::new(whole + partial, 1, 1),
        }
    }

    /// The grid of a matrix product with `m` rows and `k` columns in its
    /// result: groups of 16 by 16 threads, `m + 16` of them across and
    /// `k + 16` down.
    pub fn matmul(m: usize, k: usize) -> (g: ThreadGrid)
        requires
            m + MATRIX_GROUP_EDGE <= u64::MAX,
            k + MATRIX_GROUP_EDGE <= u64::MAX,
        ensures
            g == Self::matmul_spec(m as nat, k as nat),
    {
        ThreadGrid {
            threads_per_group: Size::new(MATRIX_GROUP_EDGE, MATRIX_GROUP_EDGE, 1),
            groups: Size::new(m as u64 + MATRIX_GROUP_EDGE, k as u64 + MATRIX_GROUP_EDGE, 1),
        }
    }

    /// The grid of a reduction: one group of one thread.
    pub fn reduction() -> (g: ThreadGrid)
        ensures
            g == Self::reduction_spec(),
    {
        ThreadGrid { threads_per_group: Size::new(1, 1, 1), groups: Size::new(1, 1, 1) }
    }

    /// Refuses a grid that launches nothing, before any work reaches the
    /// device.
    pub fn validate(&self) -> (r: Result<(), MpsError>)
        ensures
            r is Ok <==> !self.is_empty(),
            r is Err ==> r == Err::<(), MpsError>(MpsError::InvalidDimensions),
    {
        if self.threads_per_group.width == 0 || self.threads_per_group.height == 0
            || self.threads_per_group.depth == 0 || self.groups.width == 0 || self.groups.height
            == 0 || self.groups.depth == 0 {
            Err(MpsError::InvalidDimensions)
        } else {
            Ok(())
        }
    }
}

/// An element-wise grid is the smallest that covers its elements: it has a
/// thread for each of them, and with one group less it would not. It is
/// empty exactly when there is no element.
pub proof fn lemma_elementwise_grid_is_tight(n: nat)
    requires
        n <= usize::MAX,
    ensures
        ThreadGrid::elementwise_spec(n).covers(n, 1),
        n > 0 ==> (ThreadGrid::elementwise_spec(n).groups.width - 1) * ELEMENTWISE_GROUP_WIDTH < n,
        ThreadGrid::elementwise_spec(n).is_empty() <==> n == 0,
{
    let groups = groups_needed(n, ELEMENTWISE_GROUP_WIDTH as nat);
    let launched = ThreadGrid::elementwise_spec(n).groups;
    let shape = ThreadGrid::elementwise_spec(n).threads_per_group;
    assert(launched.width * shape.width == groups * 256) by (nonlinear_arith)
        requires
            launched.width == groups,
            shape.width == 256,
    ;
    assert(launched.height * shape.height == 1 && launched.depth * shape.depth == 1)
        by (nonlinear_arith)
        requires
            launched.height == 1,
            shape.height == 1,
            launched.depth == 1,
            shape.depth == 1,
    ;
}

/// A matrix grid has a thread for every element of the result, and is never
/// empty.
pub proof fn lemma_matmul_grid_covers(m: nat, k: nat)
    requires
        m + MATRIX_GROUP_EDGE <= u64::MAX,
        k + MATRIX_GROUP_EDGE <= u64::MAX,
    ensures
        ThreadGrid::matmul_spec(m, k).covers(m, k),
        !ThreadGrid::matmul_spec(m, k).is_empty(),
        ThreadGrid::matmul_spec(m, k).groups.width >= groups_needed(m, MATRIX_GROUP_EDGE as nat),
        ThreadGrid::matmul_spec(m, k).groups.height >= groups_needed(k, MATRIX_GROUP_EDGE as nat),
{
    let launched = ThreadGrid::matmul_spec(m, k).groups;
    let shape = ThreadGrid::matmul_spec(m, k).threads_per_group;
    assert(launched.width * shape.width >= m && launched.height * shape.height >= k
        && launched.depth * shape.depth == 1) by (nonlinear_arith)
        requires
            launched.width == m + 16,
            launched.height == k + 16,
            shape.width == 16,
            shape.height == 16,
            launched.depth == 1,
            shape.depth == 1,
    ;
}

} // verus!
