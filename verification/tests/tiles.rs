use crop_time::tiles::{scatter_tiles, tile_sprite, Tile};

#[test]
fn most_rolls_give_the_plain_sprite() {
    assert_eq!(tile_sprite(0), 0);
    assert_eq!(tile_sprite(50), 0);
    assert_eq!(tile_sprite(94), 0);
}

#[test]
fn three_rolls_give_the_second_sprite() {
    assert_eq!(tile_sprite(95), 1);
    assert_eq!(tile_sprite(96), 1);
    assert_eq!(tile_sprite(97), 1);
}

#[test]
fn two_rolls_give_the_third_sprite() {
    assert_eq!(tile_sprite(98), 2);
    assert_eq!(tile_sprite(99), 2);
}

#[test]
fn rolls_outside_the_hundred_fall_to_the_ends() {
    assert_eq!(tile_sprite(-1), 0);
    assert_eq!(tile_sprite(i32::MIN), 0);
    assert_eq!(tile_sprite(100), 2);
    assert_eq!(tile_sprite(i32::MAX), 2);
}

#[test]
fn hundred_rolls_split_95_3_2() {
    let mut counts = [0usize; 3];
    for roll in 0..100 {
        counts[tile_sprite(roll)] += 1;
    }
    assert_eq!(counts, [95, 3, 2]);
}

#[test]
fn ground_is_laid_row_by_row() {
    let tiles = scatter_tiles(3, 4);
    assert_eq!(tiles.len(), 12);
    for (place, tile) in tiles.iter().enumerate() {
        assert_eq!(tile.row as usize, place / 4);
        assert_eq!(tile.column as usize, place % 4);
        assert!(tile.sprite <= 2);
    }
    assert_eq!((tiles[0].row, tiles[0].column), (0, 0));
    assert_eq!((tiles[5].row, tiles[5].column), (1, 1));
    assert_eq!((tiles[11].row, tiles[11].column), (2, 3));
}

#[test]
fn ground_without_rows_or_columns_is_empty() {
    assert_eq!(scatter_tiles(0, 5), Vec::<Tile>::new());
    assert_eq!(scatter_tiles(5, 0), Vec::<Tile>::new());
    assert_eq!(scatter_tiles(-3, 5), Vec::<Tile>::new());
    assert_eq!(scatter_tiles(5, -3), Vec::<Tile>::new());
    assert_eq!(scatter_tiles(-1, -1), Vec::<Tile>::new());
}

#[test]
fn single_row_and_single_column() {
    let row = scatter_tiles(1, 3);
    assert_eq!(row.iter().map(|t| (t.row, t.column)).collect::<Vec<_>>(), vec![(0, 0), (0, 1), (0, 2)]);
    let column = scatter_tiles(3, 1);
    assert_eq!(
        column.iter().map(|t| (t.row, t.column)).collect::<Vec<_>>(),
        vec![(0, 0), (1, 0), (2, 0)]
    );
}

#[test]
fn large_ground_draws_only_the_three_sprites_and_mostly_the_plain_one() {
    let tiles = scatter_tiles(100, 100);
    assert_eq!(tiles.len(), 10_000);
    assert!(tiles.iter().all(|t| t.sprite <= 2));
    let plain = tiles.iter().filter(|t| t.sprite == 0).count();
    assert!(plain > 5_000);
    assert!(plain < 10_000);
}
