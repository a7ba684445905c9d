//! The ground: a grid of tiles, each with a sprite drawn by lot.

use rand::distributions::{Distribution, Uniform};
use rand::rngs::ThreadRng;
use vstd::arithmetic::div_mod::lemma_fundamental_div_mod_converse;
use vstd::prelude::*;

verus! {

/// rand's `ThreadRng`, carried through unopened.
#[verifier::external_type_specification]
#[verifier::external_body]
pub struct ExThreadRng(ThreadRng);

/// rand's `thread_rng`: a handle to the generator of the current thread, which
/// the operating system seeds. Nothing is claimed of the handle.
pub assume_specification[ rand::thread_rng ]() -> (rng: ThreadRng);

/// Builds rand's `Uniform` over `low..high` and draws one number from it with
/// `Distribution::sample`. rand documents the distribution as uniform over the
/// half-open range, and refuses to build it unless `low < high`; of the number
/// drawn only the range is claimed.
#[verifier::external_body]
fn draw_between(rng: &mut ThreadRng, low: i32, high: i32) -> (roll: i32)
    requires
        low < high,
    ensures
        low <= roll < high,
{
    Uniform::from(low..high).sample(rng)
}

/// One tile of the ground.
#[derive(Clone, Copy, Debug, PartialEq, Eq, Structural)]
pub struct Tile {
    pub row: i32,
    pub column: i32,
    /// The frame of the ground sheet that the tile shows.
    pub sprite: usize,
}

/// The ground sprite for a roll out of a hundred: the plain one for rolls
/// under 95, the second for 95 to 97, the third for the rest.
pub open spec fn sprite_for_roll(roll: int) -> int {
    if roll < 95 {
        0
    } else if roll < 98 {
        1
    } else {
        2
    }
}

/// The ground sprite for a roll out of a hundred.
pub fn tile_sprite(roll: i32) -> (sprite: usize)
    ensures
        sprite == sprite_for_roll(roll as int),
        sprite <= 2,
{
    if roll < 95 {
        0
    } else if roll < 98 {
        1
    } else {
        2
    }
}

/// A count of rows or columns: a negative count is none.
pub open spec fn count(n: i32) -> nat {
    if n > 0 {
        n as nat
    } else {
        0
    }
}

/// Whether `tiles` is a grid of `rows` by `columns` tiles, row by row from row
/// zero and within a row from column zero, each with one of the three ground
/// sprites.
pub open spec fn is_ground(tiles: Seq<Tile>, rows: i32, columns: i32) -> bool {
    &&& tiles.len() == count(rows) * count(columns)
    &&& forall|i: int|
        0 <= i < tiles.len() ==> {
            &&& (#[trigger] tiles[i]).row == i / (columns as int)
            &&& tiles[i].column == i % (columns as int)
            &&& tiles[i].sprite <= 2
        }
}

/// Lays the ground out: `rows` by `columns` tiles, each with a sprite drawn by
/// lot from the current thread's generator. Which sprite a tile gets is up to
/// the lot; that it is one of the three is not.
pub fn scatter_tiles(rows: i32, columns: i32) -> (tiles: Vec<Tile>)
    ensures
        is_ground(tiles@, rows, columns),
{
    let mut tiles: Vec<Tile> = Vec::new();
    let mut rng = rand::thread_rng();
    let mut row: i32 = 0;
    while row < rows
        invariant
            0 <= row <= count(rows),
            columns > 0 ==> tiles.len() == row * columns,
            columns <= 0 ==> tiles.len() == 0,
            forall|i: int|
                0 <= i < tiles.len() ==> {
                    &&& (#[trigger] tiles[i]).row == i / (columns as int)
                    &&& tiles[i].column == i % (columns as int)
                    &&& tiles[i].sprite <= 2
                },
        decreases rows - row,
    {
        let mut column: i32 = 0;
        while column < columns
            invariant
                0 <= row < rows,
                0 <= column <= count(columns),
                columns > 0 ==> tiles.len() == row * columns + column,
                columns <= 0 ==> tiles.len() == 0,
                forall|i: int|
                    0 <= i < tiles.len() ==> {
                        &&& (#[trigger] tiles[i]).row == i / (columns as int)
                        &&& tiles[i].column == i % (columns as int)
                        &&& tiles[i].sprite <= 2
                    },
            decreases columns - column,
        {
            let roll = draw_between(&mut rng, 0, 100);
            let sprite = tile_sprite(roll);
            proof {
                lemma_fundamental_div_mod_converse(
                    tiles.len() as int,
                    columns as int,
                    row as int,
                    column as int,
                );
            }
            tiles.push(Tile { row, column, sprite });
            column += 1;
        }
        proof {
            assert(columns > 0 ==> row * columns + columns == (row + 1) * columns)
                by (nonlinear_arith);
        }
        row += 1;
    }
    proof {
        if rows > 0 && columns > 0 {
            assert(row == rows);
            assert(count(rows) * count(columns) == rows * columns);
        } else {
            assert(count(rows) * count(columns) == 0) by (nonlinear_arith)
                requires
                    count(rows) == 0 || count(columns) == 0,
            ;
            if columns > 0 {
                assert(row == 0);
                assert(row * columns == 0);
            }
        }
    }
    tiles
}

/// Every roll out of a hundred gives one of the three sprites, and each of the
/// three comes from some roll.
pub proof fn sprites_cover_three(sprite: int)
    ensures
        (0 <= sprite <= 2) <==> (exists|roll: int|
            0 <= roll < 100 && #[trigger] sprite_for_roll(roll) == sprite),
{
    if 0 <= sprite <= 2 {
        assert(sprite_for_roll(0) == 0);
        assert(sprite_for_roll(95) == 1);
        assert(sprite_for_roll(98) == 2);
    }
}

} // verus!
