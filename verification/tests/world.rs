use life::World;
use life::ALIVE;
use life::DEAD;

#[test]
fn test_init_world() {
    let world = World::new(3, 3);
    for r in 0..3 {
        for c in 0..3 {
            assert_eq!(world.get(r, c), DEAD);
        }
    }
}

#[test]
fn test_populate_random() {
    let mut world = World::new(3, 3);
    world.populate_random();
    // this should not panic
}

#[test]
fn test_count_alive_neighbors_none() {
    let world = World::new(3, 3);
    let n = world.count_alive_neighbors(1, 1);
    assert_eq!(n, 0);
}

#[test]
fn test_count_alive_neighbors_all() {
    let mut world = World::new(3, 3);
    for r in 0..world.rows {
        for c in 0..world.cols {
            world.set(r, c, ALIVE);
        }
    }
    let n = world.count_alive_neighbors(1, 1);
    assert_eq!(n, 8);
}

#[test]
fn test_count_alive_neighbors_diagonal_center() {
    let mut world = World::new(3, 3);
    for i in 0..3 {
        world.set(i, i, ALIVE);
    }
    let n = world.count_alive_neighbors(1, 1);
    assert_eq!(n, 2);
}

#[test]
fn test_count_alive_neighbors_diagonal_top_left() {
    let mut world = World::new(3, 3);
    for i in 0..3 {
        world.set(i, i, ALIVE);
    }
    let n = world.count_alive_neighbors(0, 0);
    assert_eq!(n, 1);
}

#[test]
/*
    000             010
    111     ->      010
    000             010
*/
fn test_bar_3x3() {
    let mut world = World::new(3, 3);
    for i in 0..3 {
        world.set(1, i, ALIVE); // [row,col]
    }
    world.step();
    for i in 0..3 {
        assert_eq!(world.get(i, 0), DEAD);
        assert_eq!(world.get(i, 1), ALIVE);
        assert_eq!(world.get(i, 2), DEAD);
    }
}

#[test]
/*
    0100             0000
    0010             1010
    1110     ->      0110
    0000             0100
*/
fn test_glider_4x4() {
    let mut world = World::new(4, 4);
    world.set(0, 1, ALIVE); // [row,col]
    world.set(1, 2, ALIVE);
    world.set(2, 0, ALIVE);
    world.set(2, 1, ALIVE);
    world.set(2, 2, ALIVE);
    world.step();
    // first row
    assert_eq!(world.get(0, 0), DEAD);
    assert_eq!(world.get(0, 1), DEAD);
    assert_eq!(world.get(0, 2), DEAD);
    assert_eq!(world.get(0, 3), DEAD);
    // second row
    assert_eq!(world.get(1, 0), ALIVE);
    assert_eq!(world.get(1, 1), DEAD);
    assert_eq!(world.get(1, 2), ALIVE);
    assert_eq!(world.get(1, 3), DEAD);
    // third row
    assert_eq!(world.get(2, 0), DEAD);
    assert_eq!(world.get(2, 1), ALIVE);
    assert_eq!(world.get(2, 2), ALIVE);
    assert_eq!(world.get(2, 3), DEAD);
    // fourth row
    assert_eq!(world.get(3, 0), DEAD);
    assert_eq!(world.get(3, 1), ALIVE);
    assert_eq!(world.get(3, 2), DEAD);
    assert_eq!(world.get(3, 3), DEAD);
}

#[test]
fn test_new_dimensions() {
    let world = World::new(2, 5);
    assert_eq!(world.rows, 2);
    assert_eq!(world.cols, 5);
}

#[test]
fn test_new_degenerate_grids() {
    // 0x0 and 0xN grids are permitted and behave as empty.
    let mut empty = World::new(0, 0);
    empty.step();
    let mut row_less = World::new(0, 7);
    row_less.step();
    let mut col_less = World::new(4, 0);
    col_less.populate_random();
    col_less.step();
    // With a zero dimension the other one need not fit i32: no coordinate is
    // ever in range, so construction and seeding return normally.
    let mut wide = World::new(0, (i32::MAX as usize) + 1);
    wide.populate_random();
    assert_eq!(wide.rows, 0);
    assert_eq!(wide.cols, (i32::MAX as usize) + 1);
}

#[test]
fn test_set_then_get() {
    let mut world = World::new(3, 3);
    world.set(2, 1, ALIVE);
    assert_eq!(world.get(2, 1), ALIVE);
    assert_eq!(world.get(1, 2), DEAD);
    world.set(2, 1, DEAD);
    assert_eq!(world.get(2, 1), DEAD);
}

#[test]
fn test_count_alive_neighbors_all_corner() {
    // A corner of an all-alive 3x3 grid has only 3 in-bounds neighbors.
    let mut world = World::new(3, 3);
    for r in 0..3 {
        for c in 0..3 {
            world.set(r, c, ALIVE);
        }
    }
    assert_eq!(world.count_alive_neighbors(0, 0), 3);
    assert_eq!(world.count_alive_neighbors(0, 2), 3);
    assert_eq!(world.count_alive_neighbors(2, 0), 3);
    assert_eq!(world.count_alive_neighbors(2, 2), 3);
    assert_eq!(world.count_alive_neighbors(0, 1), 5);
}

#[test]
fn test_populate_random_valid_states() {
    let mut world = World::new(5, 5);
    world.populate_random();
    for r in 0..5 {
        for c in 0..5 {
            let v = world.get(r, c);
            assert!(v == ALIVE || v == DEAD);
        }
    }
}

#[test]
fn test_empty_grid_step_is_fixed_point() {
    let mut world = World::new(4, 6);
    world.step();
    for r in 0..4 {
        for c in 0..6 {
            assert_eq!(world.get(r, c), DEAD);
        }
    }
}

#[test]
fn test_blinker_period_two() {
    // Two steps of the blinker return the starting configuration: stepping
    // twice agrees with recomputing generation 2 from generation 0.
    let mut world = World::new(3, 3);
    for i in 0..3 {
        world.set(1, i, ALIVE);
    }
    world.step();
    world.step();
    for r in 0..3 {
        for c in 0..3 {
            let expected = if r == 1 { ALIVE } else { DEAD };
            assert_eq!(world.get(r, c), expected);
        }
    }
}

#[test]
fn test_block_is_still_life() {
    // A 2x2 block in a 4x4 grid is unchanged by a step: each live cell has
    // exactly 3 live neighbors.
    let mut world = World::new(4, 4);
    world.set(1, 1, ALIVE);
    world.set(1, 2, ALIVE);
    world.set(2, 1, ALIVE);
    world.set(2, 2, ALIVE);
    world.step();
    for r in 0..4 {
        for c in 0..4 {
            let expected = if (1..=2).contains(&r) && (1..=2).contains(&c) { ALIVE } else { DEAD };
            assert_eq!(world.get(r, c), expected);
        }
    }
}
