use mps_backend::error::MpsError;
use mps_backend::grid::{Size, ThreadGrid, ELEMENTWISE_GROUP_WIDTH, MATRIX_GROUP_EDGE};

fn one_dimensional(groups: u64) -> ThreadGrid {
    ThreadGrid {
        threads_per_group: Size { width: 256, height: 1, depth: 1 },
        groups: Size { width: groups, height: 1, depth: 1 },
    }
}

#[test]
fn group_sizes_are_the_documented_ones() {
    assert_eq!(ELEMENTWISE_GROUP_WIDTH, 256);
    assert_eq!(MATRIX_GROUP_EDGE, 16);
}

#[test]
fn size_new_keeps_its_arguments() {
    assert_eq!(Size::new(3, 5, 7), Size { width: 3, height: 5, depth: 7 });
}

#[test]
fn elementwise_grid_rounds_up() {
    assert_eq!(ThreadGrid::elementwise(1), one_dimensional(1));
    assert_eq!(ThreadGrid::elementwise(255), one_dimensional(1));
    assert_eq!(ThreadGrid::elementwise(256), one_dimensional(1));
    assert_eq!(ThreadGrid::elementwise(257), one_dimensional(2));
    assert_eq!(ThreadGrid::elementwise(1000), one_dimensional(4));
    assert_eq!(ThreadGrid::elementwise(1024), one_dimensional(4));
    assert_eq!(ThreadGrid::elementwise(1025), one_dimensional(5));
}

#[test]
fn elementwise_grid_of_nothing_has_no_group() {
    assert_eq!(ThreadGrid::elementwise(0), one_dimensional(0));
}

#[test]
fn elementwise_grid_of_the_largest_count_does_not_overflow() {
    let grid = ThreadGrid::elementwise(usize::MAX);
    let n = usize::MAX as u64;
    assert_eq!(grid.groups.width, n / 256 + 1);
    assert_eq!(grid.groups.height, 1);
}

#[test]
fn elementwise_grid_covers_every_element_and_is_tight() {
    for n in 1usize..2000 {
        let grid = ThreadGrid::elementwise(n);
        let threads = grid.groups.width * grid.threads_per_group.width;
        assert!(threads >= n as u64);
        assert!((grid.groups.width - 1) * grid.threads_per_group.width < n as u64);
    }
}

#[test]
fn matmul_grid_adds_a_group_edge_to_each_dimension() {
    let grid = ThreadGrid::matmul(2, 2);
    assert_eq!(grid.threads_per_group, Size { width: 16, height: 16, depth: 1 });
    assert_eq!(grid.groups, Size { width: 18, height: 18, depth: 1 });
    let grid = ThreadGrid::matmul(100, 7);
    assert_eq!(grid.groups, Size { width: 116, height: 23, depth: 1 });
}

#[test]
fn matmul_grid_covers_the_result() {
    for m in 1usize..40 {
        for k in 1usize..40 {
            let grid = ThreadGrid::matmul(m, k);
            assert!(grid.groups.width * grid.threads_per_group.width >= m as u64);
            assert!(grid.groups.height * grid.threads_per_group.height >= k as u64);
            assert!(grid.groups.width >= (m as u64 + 15) / 16);
            assert!(grid.groups.height >= (k as u64 + 15) / 16);
        }
    }
}

#[test]
fn reduction_grid_is_one_thread() {
    let grid = ThreadGrid::reduction();
    assert_eq!(grid.threads_per_group, Size { width: 1, height: 1, depth: 1 });
    assert_eq!(grid.groups, Size { width: 1, height: 1, depth: 1 });
}

#[test]
fn validate_accepts_a_grid_that_launches_something() {
    assert_eq!(ThreadGrid::elementwise(1).validate(), Ok(()));
    assert_eq!(ThreadGrid::matmul(1, 1).validate(), Ok(()));
    assert_eq!(ThreadGrid::reduction().validate(), Ok(()));
}

#[test]
fn validate_refuses_each_zero_dimension() {
    let full = Size { width: 2, height: 3, depth: 4 };
    let holes = [
        Size { width: 0, height: 3, depth: 4 },
        Size { width: 2, height: 0, depth: 4 },
        Size { width: 2, height: 3, depth: 0 },
    ];
    for hole in holes {
        let no_groups = ThreadGrid { threads_per_group: full, groups: hole };
        assert_eq!(no_groups.validate(), Err(MpsError::InvalidDimensions));
        let no_threads = ThreadGrid { threads_per_group: hole, groups: full };
        assert_eq!(no_threads.validate(), Err(MpsError::InvalidDimensions));
    }
    assert_eq!(ThreadGrid::elementwise(0).validate(), Err(MpsError::InvalidDimensions));
}
