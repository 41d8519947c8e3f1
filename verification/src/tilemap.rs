//! The tile grid: where the walls stand, which block the way and which can be blown up.

use vstd::prelude::*;
use crate::components::{clamp_coord, to_coord, Position, TILE_SIZE};

verus! {

/// One tile of the map: its centre, whether it blocks movement and whether an explosion
/// destroys it.
#[derive(Clone, Copy, Debug, PartialEq, Eq, Structural)]
pub struct Tile {
    pub position: Position,
    pub collider: bool,
    pub breakable: bool,
}

/// The tile drawn for `symbol` in column `column` of row `row`. Columns run to the right
/// and rows run downwards, one tile edge apart. `#` is a solid wall, `@` a breakable wall;
/// any other symbol stands for a tile that one can walk over.
pub open spec fn tile_at(symbol: char, column: int, row: int) -> Tile {
    Tile {
        position: Position {
            x: clamp_coord(column * TILE_SIZE) as i32,
            y: clamp_coord(-(row * TILE_SIZE)) as i32,
        },
        collider: symbol == '#' || symbol == '@',
        breakable: symbol == '@',
    }
}

/// The tiles of one row of symbols, from left to right.
pub open spec fn row_tiles(symbols: Seq<char>, row: int) -> Seq<Tile> {
    Seq::new(symbols.len(), |column: int| tile_at(symbols[column], column, row))
}

/// The tiles of the first `count` rows of a grid of symbols, row after row.
pub open spec fn grid_tiles(rows: Seq<Vec<char>>, count: int) -> Seq<Tile>
    decreases count,
{
    if count <= 0 {
        Seq::empty()
    } else {
        grid_tiles(rows, count - 1) + row_tiles(rows[count - 1]@, count - 1)
    }
}

/// Builds the tile for one symbol of the map.
pub fn make_tile(symbol: char, column: usize, row: usize) -> (tile: Tile)
    ensures
        tile == tile_at(symbol, column as int, row as int),
{
    let x: i32 = to_coord((column as i128) * (TILE_SIZE as i128));
    let y: i32 = to_coord(-((row as i128) * (TILE_SIZE as i128)));
    Tile {
        position: Position { x, y },
        collider: symbol == '#' || symbol == '@',
        breakable: symbol == '@',
    }
}

/// Lays out the map from a grid of symbols, one tile for each symbol, row after row.
pub fn create_map_system(rows: &Vec<Vec<char>>) -> (tiles: Vec<Tile>)
    ensures
        tiles@ == grid_tiles(rows@, rows@.len() as int),
{
    let mut tiles: Vec<Tile> = Vec::new();
    let mut row: usize = 0;
    while row < rows.len()
        invariant
            row <= rows.len(),
            tiles@ == grid_tiles(rows@, row as int),
        decreases rows.len() - row,
    {
        let symbols = &rows[row];
        let ghost before = tiles@;
        let mut column: usize = 0;
        while column < symbols.len()
            invariant
                column <= symbols.len(),
                tiles@ == before + row_tiles(symbols@, row as int).take(column as int),
            decreases symbols.len() - column,
        {
            let tile = make_tile(symbols[column], column, row);
            tiles.push(tile);
            column += 1;
        }
        row += 1;
    }
    tiles
}

} // verus!
