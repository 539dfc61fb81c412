//! A tiled grid of sprites, rendered as one flat mesh.
//!
//! The grid is a rectangle of cells, row-major; each cell names a sprite of
//! a sprite sheet by index. The mesh subdivides a plane into one quad per
//! cell and triangulates each quad into six vertices; every vertex of a
//! cell samples one corner of the cell's sprite. Which sprite and which
//! corner each vertex uses is decided here; the floating-point positions
//! and texture coordinates are the renderer's side of the work.

use vstd::arithmetic::div_mod::lemma_multiply_divide_lt;
use vstd::prelude::*;

verus! {

/// Why a grid was rejected.
#[derive(Clone, Copy, Debug, PartialEq, Eq, Structural)]
pub enum GridError {
    /// The grid has no rows.
    EmptyGrid,
    /// The first row has no cells.
    EmptyRow,
    /// Some row is longer or shorter than the first.
    RaggedRow,
    /// Some cell names a sprite the sheet does not have.
    SpriteIndexOutOfRange,
}

/// Every row is as long as the first.
pub open spec fn grid_rectangular(grid: Seq<Vec<usize>>) -> bool {
    forall|r: int| 0 <= r < grid.len() ==> (#[trigger] grid[r])@.len() == grid[0]@.len()
}

/// Every cell names a sprite the sheet has.
pub open spec fn grid_indices_within(grid: Seq<Vec<usize>>, sprite_count: usize) -> bool {
    forall|r: int, c: int|
        0 <= r < grid.len() && 0 <= c < grid[r]@.len() ==> (#[trigger] grid[r]@[c]) < sprite_count
}

/// The first reason to reject `grid` against a sheet of `sprite_count`
/// sprites, or `None` when the grid is acceptable.
pub open spec fn grid_error(grid: Seq<Vec<usize>>, sprite_count: usize) -> Option<GridError> {
    if grid.len() == 0 {
        Option::Some(GridError::EmptyGrid)
    } else if grid[0]@.len() == 0 {
        Option::Some(GridError::EmptyRow)
    } else if !grid_rectangular(grid) {
        Option::Some(GridError::RaggedRow)
    } else if !grid_indices_within(grid, sprite_count) {
        Option::Some(GridError::SpriteIndexOutOfRange)
    } else {
        Option::None
    }
}

/// A rectangular grid of sprite indices over a sheet of `sprite_count`
/// sprites.
#[derive(Clone, Debug)]
pub struct GridOfSprites {
    /// The sprite index of each cell, row-major: `grid[row][col]`.
    pub grid: Vec<Vec<usize>>,
    /// How many rows the grid has.
    pub num_rows: usize,
    /// How many cells each row has.
    pub num_cols: usize,
    /// How many sprites the sheet offers.
    pub sprite_count: usize,
}

/// One corner of a sprite's texture rectangle.
#[derive(Clone, Copy, Debug, PartialEq, Eq, Structural)]
pub enum SpriteCorner {
    BottomLeft,
    BottomRight,
    TopRight,
    TopLeft,
}

/// Which corner the `slot`-th vertex of a cell samples. A cell's quad
/// `(v0, v1, v2, v3)` runs bottom-left, bottom-right, top-right, top-left
/// and is triangulated as `(v0, v1, v2)` and `(v0, v2, v3)`.
pub open spec fn corner_pattern(slot: int) -> SpriteCorner {
    if slot == 0 {
        SpriteCorner::BottomLeft
    } else if slot == 1 {
        SpriteCorner::BottomRight
    } else if slot == 2 {
        SpriteCorner::TopRight
    } else if slot == 3 {
        SpriteCorner::BottomLeft
    } else if slot == 4 {
        SpriteCorner::TopRight
    } else {
        SpriteCorner::TopLeft
    }
}

/// Which corner the `slot`-th vertex of a cell samples.
pub fn corner_for_slot(slot: usize) -> (corner: SpriteCorner)
    requires
        slot < 6,
    ensures
        corner == corner_pattern(slot as int),
{
    if slot == 0 {
        SpriteCorner::BottomLeft
    } else if slot == 1 {
        SpriteCorner::BottomRight
    } else if slot == 2 {
        SpriteCorner::TopRight
    } else if slot == 3 {
        SpriteCorner::BottomLeft
    } else if slot == 4 {
        SpriteCorner::TopRight
    } else {
        SpriteCorner::TopLeft
    }
}

/// What one mesh vertex samples: a sprite of the sheet, at one corner of
/// its texture rectangle.
#[derive(Clone, Copy, Debug, PartialEq, Eq, Structural)]
pub struct SpriteVertex {
    pub sprite: usize,
    pub corner: SpriteCorner,
}

impl GridOfSprites {
    /// The stored shape is consistent: `num_rows` rows of `num_cols` cells
    /// each, at least one of each, and every cell within the sheet.
    pub open spec fn wf(self) -> bool {
        &&& self.grid@.len() == self.num_rows
        &&& self.num_rows >= 1
        &&& self.num_cols >= 1
        &&& forall|r: int|
            0 <= r < self.grid@.len() ==> (#[trigger] self.grid@[r])@.len() == self.num_cols
        &&& forall|r: int, c: int|
            0 <= r < self.grid@.len() && 0 <= c < self.grid@[r]@.len() ==> (
            #[trigger] self.grid@[r]@[c]) < self.sprite_count
    }

    /// The sprite index of cell `cell`, counting cells row-major.
    pub open spec fn cell_sprite(self, cell: int) -> usize
        recommends
            self.wf(),
            0 <= cell < self.num_rows * self.num_cols,
    {
        self.grid@[cell / self.num_cols as int]@[cell % self.num_cols as int]
    }

    /// Check `grid` against a sheet of `sprite_count` sprites and take its
    /// shape on; rejected grids report the first reason.
    pub fn new(grid: Vec<Vec<usize>>, sprite_count: usize) -> (out: Result<
        GridOfSprites,
        GridError,
    >)
        ensures
            out == (match grid_error(grid@, sprite_count) {
                Option::Some(e) => Err::<GridOfSprites, GridError>(e),
                Option::None => Ok(
                    GridOfSprites {
                        grid,
                        num_rows: grid@.len() as usize,
                        num_cols: grid@[0]@.len() as usize,
                        sprite_count,
                    },
                ),
            }),
            out matches Ok(g) ==> g.wf(),
    {
        let num_rows = grid.len();
        if num_rows == 0 {
            return Err(GridError::EmptyGrid);
        }
        let num_cols = grid[0].len();
        if num_cols == 0 {
            return Err(GridError::EmptyRow);
        }
        let mut r: usize = 0;
        while r < num_rows
            invariant
                r <= num_rows,
                num_rows == grid@.len(),
                num_rows >= 1,
                num_cols == grid@[0]@.len(),
                num_cols >= 1,
                forall|k: int| 0 <= k < r ==> (#[trigger] grid@[k])@.len() == num_cols,
            decreases num_rows - r,
        {
            if grid[r].len() != num_cols {
                proof {
                    assert(grid@[r as int]@.len() != grid@[0]@.len());
                }
                return Err(GridError::RaggedRow);
            }
            r = r + 1;
        }
        let mut r: usize = 0;
        while r < num_rows
            invariant
                r <= num_rows,
                num_rows == grid@.len(),
                num_rows >= 1,
                num_cols == grid@[0]@.len(),
                num_cols >= 1,
                grid_rectangular(grid@),
                forall|k: int, c: int|
                    0 <= k < r && 0 <= c < grid@[k]@.len() ==> (#[trigger] grid@[k]@[c])
                        < sprite_count,
            decreases num_rows - r,
        {
            let row_len = grid[r].len();
            let mut c: usize = 0;
            while c < row_len
                invariant
                    c <= row_len,
                    r < num_rows,
                    num_rows == grid@.len(),
                    num_cols == grid@[0]@.len(),
                    num_cols >= 1,
                    grid_rectangular(grid@),
                    row_len == grid@[r as int]@.len(),
                    forall|cc: int| 0 <= cc < c ==> (#[trigger] grid@[r as int]@[cc]) < sprite_count,
                decreases row_len - c,
            {
                if grid[r][c] >= sprite_count {
                    proof {
                        assert(grid@[r as int]@[c as int] >= sprite_count);
                    }
                    return Err(GridError::SpriteIndexOutOfRange);
                }
                c = c + 1;
            }
            r = r + 1;
        }
        Ok(GridOfSprites { grid, num_rows, num_cols, sprite_count })
    }

    /// How many cells the grid has.
    pub fn cell_count(&self) -> (n: usize)
        requires
            self.wf(),
            self.num_rows * self.num_cols <= usize::MAX,
        ensures
            n == self.num_rows * self.num_cols,
    {
        self.num_rows * self.num_cols
    }

    /// The sprite index of cell `cell`, counting cells row-major.
    pub fn sprite_index_for_cell(&self, cell: usize) -> (sprite: usize)
        requires
            self.wf(),
            cell < self.num_rows * self.num_cols,
        ensures
            sprite == self.cell_sprite(cell as int),
            sprite < self.sprite_count,
    {
        proof {
            assert(self.num_cols * self.num_rows == self.num_rows * self.num_cols)
                by (nonlinear_arith);
            lemma_multiply_divide_lt(cell as int, self.num_cols as int, self.num_rows as int);
        }
        let row = cell / self.num_cols;
        let col = cell % self.num_cols;
        self.grid[row][col]
    }

    /// The whole mesh layout: six vertices per cell, in cell order, each
    /// naming the cell's sprite and the corner it samples.
    pub fn vertex_layout(&self) -> (layout: Vec<SpriteVertex>)
        requires
            self.wf(),
            6 * (self.num_rows * self.num_cols) <= usize::MAX,
        ensures
            layout@.len() == 6 * (self.num_rows * self.num_cols),
            forall|v: int|
                0 <= v < layout@.len() ==> #[trigger] layout@[v] == (SpriteVertex {
                    sprite: self.cell_sprite(v / 6),
                    corner: corner_pattern(v % 6),
                }),
    {
        proof {
            assert(0 <= self.num_rows * self.num_cols) by (nonlinear_arith)
                requires
                    self.num_rows >= 1,
                    self.num_cols >= 1,
            ;
        }
        let cells = self.num_rows * self.num_cols;
        let total = 6 * cells;
        let mut layout: Vec<SpriteVertex> = Vec::new();
        let mut v: usize = 0;
        while v < total
            invariant
                v <= total,
                self.wf(),
                cells == self.num_rows * self.num_cols,
                total == 6 * cells,
                layout@.len() == v,
                forall|w: int|
                    0 <= w < v ==> #[trigger] layout@[w] == (SpriteVertex {
                        sprite: self.cell_sprite(w / 6),
                        corner: corner_pattern(w % 6),
                    }),
            decreases total - v,
        {
            proof {
                lemma_multiply_divide_lt(v as int, 6, cells as int);
            }
            let cell = v / 6;
            let slot = v % 6;
            let sprite = self.sprite_index_for_cell(cell);
            let corner = corner_for_slot(slot);
            layout.push(SpriteVertex { sprite, corner });
            v = v + 1;
        }
        layout
    }
}

/// What a stored grid descriptor holds once it has been read: the path of
/// the sprite sheet it draws from, and the grid of sprite indices.
pub struct GridDescriptor {
    pub spritesheet_path: String,
    pub grid: Vec<Vec<usize>>,
}

/// Builds the mesh description of a `GridOfSprites` from a stored
/// descriptor.
pub struct GridOfSpritesFormat;

impl GridOfSpritesFormat {
    /// Check the descriptor's grid against a sheet of `sprite_count`
    /// sprites and take its shape on.
    pub fn import(&self, descriptor: GridDescriptor, sprite_count: usize) -> (out: Result<
        GridOfSprites,
        GridError,
    >)
        ensures
            out == (match grid_error(descriptor.grid@, sprite_count) {
                Option::Some(e) => Err::<GridOfSprites, GridError>(e),
                Option::None => Ok(
                    GridOfSprites {
                        grid: descriptor.grid,
                        num_rows: descriptor.grid@.len() as usize,
                        num_cols: descriptor.grid@[0]@.len() as usize,
                        sprite_count,
                    },
                ),
            }),
            out matches Ok(g) ==> g.wf(),
    {
        GridOfSprites::new(descriptor.grid, sprite_count)
    }
}

} // verus!
