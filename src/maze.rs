use vstd::prelude::*;

verus! {

/// Largest number of cells along either axis of a maze.
pub const MAX_CELLS: usize = 65536;

/// Largest tile size, in world units.
pub const MAX_TILE: u32 = 65536;

/// The texture family of an opaque cell.
#[derive(Clone, Copy, Debug, PartialEq, Eq, Structural)]
pub enum WallType {
    Normal,
    Exit,
}

/// A grid of cells read from text: `'#'` is a wall, `'E'` an exit door (also opaque),
/// everything else walkable. World coordinates are integers; one cell spans
/// `tile_size` world units along each axis.
pub struct Maze {
    pub map: Vec<Vec<char>>,
    pub width: usize,
    pub height: usize,
    pub tile_size: u32,
    pub start_pos: (i64, i64),
    pub goal_pos: (i64, i64),
    pub pill_positions: Vec<(i64, i64)>,
}

/// The cell at column `x`, row `y`, if the rows reach it.
pub open spec fn tile_at(map: Seq<Vec<char>>, x: int, y: int) -> Option<char> {
    if 0 <= y < map.len() && 0 <= x < map[y]@.len() {
        Some(map[y]@[x])
    } else {
        None
    }
}

pub open spec fn is_wall_char(c: char) -> bool {
    c == '#' || c == 'E'
}

/// Whether the cell at (x, y) is opaque: a wall or an exit door, or a cell that the
/// rows do not reach.
pub open spec fn wall_at(map: Seq<Vec<char>>, x: int, y: int) -> bool {
    match tile_at(map, x, y) {
        Some(c) => is_wall_char(c),
        None => true,
    }
}

/// The texture family of the opaque cell at (x, y); anything but an exit door is normal.
pub open spec fn wall_type_at(map: Seq<Vec<char>>, x: int, y: int) -> WallType {
    if tile_at(map, x, y) == Some('E') {
        WallType::Exit
    } else {
        WallType::Normal
    }
}

/// Why a maze could not be built.
#[derive(Clone, Copy, Debug, PartialEq, Eq, Structural)]
pub enum MazeError {
    /// No non-empty line.
    Empty,
    /// More than `MAX_CELLS` rows or columns.
    TooLarge,
    /// A tile size of zero or above `MAX_TILE`.
    InvalidTileSize,
}

/// The world coordinate of the center of cell `c`.
pub open spec fn cell_center(c: int, tile: int) -> int {
    c * tile + tile / 2
}

/// The lines that hold at least one character, in order.
pub open spec fn non_empty_lines(lines: Seq<Seq<char>>) -> Seq<Seq<char>>
    decreases lines.len(),
{
    if lines.len() == 0 {
        Seq::empty()
    } else {
        let rest = non_empty_lines(lines.drop_last());
        if lines.last().len() > 0 { rest.push(lines.last()) } else { rest }
    }
}

/// The characters of each line.
pub open spec fn line_views(lines: Seq<Vec<char>>) -> Seq<Seq<char>> {
    lines.map_values(|l: Vec<char>| l@)
}

/// A row with every pill marker `'p'` turned into walkable floor `'.'`.
pub open spec fn cleared_row(row: Seq<char>) -> Seq<char> {
    row.map_values(|c: char| if c == 'p' { '.' } else { c })
}

/// The center of the last `marker` among the first `n` cells of row y, or `acc` if none.
pub open spec fn marker_in_row(row: Seq<char>, marker: char, n: int, y: int, tile: int, acc: (i64, i64)) -> (i64, i64)
    decreases n,
{
    if n <= 0 {
        acc
    } else {
        let before = marker_in_row(row, marker, n - 1, y, tile, acc);
        if row[n - 1] == marker {
            (cell_center(n - 1, tile) as i64, cell_center(y, tile) as i64)
        } else {
            before
        }
    }
}

/// The center of the last `marker`, in reading order, in the first `m` rows; the center
/// of cell (1, 1) if there is none.
pub open spec fn marker_in_rows(rows: Seq<Seq<char>>, marker: char, m: int, tile: int) -> (i64, i64)
    decreases m,
{
    if m <= 0 {
        (cell_center(1, tile) as i64, cell_center(1, tile) as i64)
    } else {
        marker_in_row(rows[m - 1], marker, rows[m - 1].len() as int, m - 1, tile,
            marker_in_rows(rows, marker, m - 1, tile))
    }
}

/// The centers of the pill markers among the first `n` cells of row y, in order.
pub open spec fn pills_in_row(row: Seq<char>, n: int, y: int, tile: int) -> Seq<(i64, i64)>
    decreases n,
{
    if n <= 0 {
        Seq::empty()
    } else {
        let before = pills_in_row(row, n - 1, y, tile);
        if row[n - 1] == 'p' {
            before.push((cell_center(n - 1, tile) as i64, cell_center(y, tile) as i64))
        } else {
            before
        }
    }
}

/// The centers of the pill markers in the first `m` rows, in reading order.
pub open spec fn pills_in_rows(rows: Seq<Seq<char>>, m: int, tile: int) -> Seq<(i64, i64)>
    decreases m,
{
    if m <= 0 {
        Seq::empty()
    } else {
        pills_in_rows(rows, m - 1, tile) + pills_in_row(rows[m - 1], rows[m - 1].len() as int, m - 1, tile)
    }
}

impl Maze {
    /// The maze's size fits the integer ranges that ray casting works in.
    pub open spec fn wf(&self) -> bool {
        &&& self.width <= MAX_CELLS
        &&& self.height <= MAX_CELLS
        &&& 1 <= self.tile_size <= MAX_TILE
    }

    /// Whether (x, y) lies off the grid of `width` by `height` cells.
    pub open spec fn out_of_bounds(&self, x: int, y: int) -> bool {
        x < 0 || y < 0 || x >= self.width || y >= self.height
    }

    /// A ray stops in a cell off the grid or in an opaque one.
    pub open spec fn blocks(&self, x: int, y: int) -> bool {
        self.out_of_bounds(x, y) || wall_at(self.map@, x, y)
    }

    /// Builds a maze from the lines of a map, skipping empty ones: `'S'` marks the start,
    /// `'E'` the exit door (whose cell stays opaque), `'p'` a pill, whose cell becomes
    /// floor. Where a marker occurs more than once the last one counts; a missing start or
    /// exit is placed at the center of cell (1, 1). The width is that of the first line.
    pub fn from_lines(lines: Vec<Vec<char>>, tile_size: u32) -> (r: Result<Maze, MazeError>)
        ensures
            r == Err::<Maze, MazeError>(MazeError::InvalidTileSize) <==> !(1 <= tile_size <= MAX_TILE),
            r == Err::<Maze, MazeError>(MazeError::Empty) <==> (1 <= tile_size <= MAX_TILE
                && non_empty_lines(line_views(lines@)).len() == 0),
            r == Err::<Maze, MazeError>(MazeError::TooLarge) <==> (1 <= tile_size <= MAX_TILE
                && non_empty_lines(line_views(lines@)).len() > 0
                && (non_empty_lines(line_views(lines@)).len() > MAX_CELLS
                    || exists|y: int| 0 <= y < non_empty_lines(line_views(lines@)).len()
                        && #[trigger] non_empty_lines(line_views(lines@))[y].len() > MAX_CELLS)),
            r is Ok ==> {
                let m = r->Ok_0;
                let rows = non_empty_lines(line_views(lines@));
                &&& m.wf()
                &&& m.tile_size == tile_size
                &&& m.height == rows.len()
                &&& m.width == rows[0].len()
                &&& m.map@.len() == rows.len()
                &&& forall|y: int| 0 <= y < rows.len() ==> #[trigger] m.map@[y]@ == cleared_row(rows[y])
                &&& m.start_pos == marker_in_rows(rows, 'S', rows.len() as int, tile_size as int)
                &&& m.goal_pos == marker_in_rows(rows, 'E', rows.len() as int, tile_size as int)
                &&& m.pill_positions@ == pills_in_rows(rows, rows.len() as int, tile_size as int)
            },
    {
        if tile_size == 0 || tile_size > MAX_TILE {
            return Err(MazeError::InvalidTileSize);
        }
        let ghost lv = line_views(lines@);
        let rows = Self::drop_empty_lines(lines);
        assert(line_views(rows@).len() == rows@.len());
        if rows.len() == 0 {
            return Err(MazeError::Empty);
        }
        if rows.len() > MAX_CELLS {
            return Err(MazeError::TooLarge);
        }
        let mut k: usize = 0;
        while k < rows.len()
            invariant
                k <= rows@.len(),
                0 < rows@.len() <= MAX_CELLS,
                1 <= tile_size <= MAX_TILE,
                lv == line_views(lines@),
                line_views(rows@) == non_empty_lines(lv),
                forall|y: int| 0 <= y < k ==> #[trigger] line_views(rows@)[y].len() <= MAX_CELLS,
            decreases rows@.len() - k,
        {
            assert(line_views(rows@)[k as int] == rows@[k as int]@);
            if rows[k].len() > MAX_CELLS {
                assert(line_views(rows@)[k as int] == rows@[k as int]@);
                assert(non_empty_lines(lv)[k as int].len() > MAX_CELLS);
                return Err(MazeError::TooLarge);
            }
            k = k + 1;
        }
        let t: i64 = tile_size as i64;
        let half: i64 = t / 2;
        let mut start_pos: (i64, i64) = (t + half, t + half);
        let mut goal_pos: (i64, i64) = (t + half, t + half);
        let mut pill_positions: Vec<(i64, i64)> = Vec::new();
        let mut map: Vec<Vec<char>> = Vec::new();
        let ghost rs = line_views(rows@);
        let mut y: usize = 0;
        while y < rows.len()
            invariant
                rs == line_views(rows@),
                rs == non_empty_lines(lv),
                lv == line_views(lines@),
                rs.len() == rows@.len(),
                rs.len() > 0,
                y <= rs.len(),
                rs.len() <= MAX_CELLS,
                forall|j: int| 0 <= j < rs.len() ==> #[trigger] rs[j].len() <= MAX_CELLS,
                1 <= tile_size <= MAX_TILE,
                t == tile_size,
                half == t / 2,
                map@.len() == y,
                forall|j: int| 0 <= j < y ==> #[trigger] map@[j]@ == cleared_row(rs[j]),
                start_pos == marker_in_rows(rs, 'S', y as int, t as int),
                goal_pos == marker_in_rows(rs, 'E', y as int, t as int),
                pill_positions@ == pills_in_rows(rs, y as int, t as int),
            decreases rs.len() - y,
        {
            let row: &Vec<char> = &rows[y];
            assert(rs[y as int] == rows@[y as int]@);
            let mut cleared: Vec<char> = Vec::new();
            let ghost pills_before = pill_positions@;
            assert(y as int * t <= MAX_CELLS * MAX_TILE) by (nonlinear_arith)
                requires y <= MAX_CELLS, t <= MAX_TILE, t >= 0;
            let cy: i64 = (y as i64) * t + half;
            let mut x: usize = 0;
            while x < row.len()
                invariant
                    rs == line_views(rows@),
                    y < rs.len(),
                    row@ == rs[y as int],
                    row@.len() <= MAX_CELLS,
                    1 <= tile_size <= MAX_TILE,
                    t == tile_size,
                    half == t / 2,
                    cy == cell_center(y as int, t as int),
                    x <= row@.len(),
                    cleared@ == cleared_row(row@).subrange(0, x as int),
                    start_pos == marker_in_row(row@, 'S', x as int, y as int, t as int, marker_in_rows(rs, 'S', y as int, t as int)),
                    goal_pos == marker_in_row(row@, 'E', x as int, y as int, t as int, marker_in_rows(rs, 'E', y as int, t as int)),
                    pill_positions@ == pills_before + pills_in_row(row@, x as int, y as int, t as int),
                decreases row@.len() - x,
            {
                assert(x as int * t <= MAX_CELLS * MAX_TILE) by (nonlinear_arith)
                    requires x <= MAX_CELLS, t <= MAX_TILE, t >= 0;
                let cx: i64 = (x as i64) * t + half;
                let c: char = row[x];
                if c == 'S' {
                    start_pos = (cx, cy);
                } else if c == 'E' {
                    goal_pos = (cx, cy);
                } else if c == 'p' {
                    pill_positions.push((cx, cy));
                }
                cleared.push(if c == 'p' { '.' } else { c });
                proof {
                    assert(cleared_row(row@).subrange(0, x + 1) =~= cleared_row(row@).subrange(0, x as int).push(if c == 'p' { '.' } else { c }));
                    assert(pills_before + pills_in_row(row@, x + 1, y as int, t as int) =~= (pills_before + pills_in_row(row@, x as int, y as int, t as int)) + (if c == 'p' { seq![(cx, cy)] } else { Seq::empty() }));
                }
                x = x + 1;
            }
            proof {
                assert(cleared@ =~= cleared_row(row@));
            }
            map.push(cleared);
            y = y + 1;
        }
        assert(rs[0] == rows@[0]@);
        let width: usize = rows[0].len();
        let height: usize = rows.len();
        Ok(Maze { map, width, height, tile_size, start_pos, goal_pos, pill_positions })
    }

    /// The lines that hold at least one character.
    fn drop_empty_lines(lines: Vec<Vec<char>>) -> (rows: Vec<Vec<char>>)
        ensures
            line_views(rows@) == non_empty_lines(line_views(lines@)),
    {
        let mut rows: Vec<Vec<char>> = Vec::new();
        let mut i: usize = 0;
        while i < lines.len()
            invariant
                i <= lines@.len(),
                line_views(rows@) == non_empty_lines(line_views(lines@).subrange(0, i as int)),
            decreases lines@.len() - i,
        {
            proof {
                assert(line_views(lines@).subrange(0, i + 1).drop_last() =~= line_views(lines@).subrange(0, i as int));
                assert(line_views(lines@).subrange(0, i + 1).last() == lines@[i as int]@);
            }
            let ghost before = rows@;
            if lines[i].len() > 0 {
                let line: Vec<char> = lines[i].clone();
                rows.push(line);
                assert(line_views(rows@) =~= line_views(before).push(lines@[i as int]@));
            }
            i = i + 1;
        }
        proof {
            assert(line_views(lines@).subrange(0, lines@.len() as int) =~= line_views(lines@));
        }
        rows
    }

    /// Whether world point (wx, wy) lies in a cell of the grid that is not opaque.
    pub open spec fn walkable_at(&self, wx: int, wy: int) -> bool {
        wx >= 0 && wy >= 0 && !self.blocks(wx / self.tile_size as int, wy / self.tile_size as int)
    }

    /// Whether the cell holding world point (world_x, world_y) lies on the grid and is not
    /// opaque.
    pub fn is_walkable(&self, world_x: i64, world_y: i64) -> (r: bool)
        requires
            self.wf(),
        ensures
            r == self.walkable_at(world_x as int, world_y as int),
    {
        if world_x < 0 || world_y < 0 {
            return false;
        }
        let gx: u64 = world_x as u64 / self.tile_size as u64;
        let gy: u64 = world_y as u64 / self.tile_size as u64;
        if gx >= self.width as u64 || gy >= self.height as u64 {
            return false;
        }
        !self.is_wall(gx as usize, gy as usize)
    }

    /// Whether world point (world_x, world_y) lies strictly within `threshold` of the goal.
    pub fn is_goal(&self, world_x: i64, world_y: i64, threshold: u64) -> (r: bool)
        requires
            -0x4000_0000_0000_0000 <= world_x <= 0x4000_0000_0000_0000,
            -0x4000_0000_0000_0000 <= world_y <= 0x4000_0000_0000_0000,
            -0x4000_0000_0000_0000 <= self.goal_pos.0 <= 0x4000_0000_0000_0000,
            -0x4000_0000_0000_0000 <= self.goal_pos.1 <= 0x4000_0000_0000_0000,
            threshold <= 0x4000_0000_0000_0000,
        ensures
            r == ((world_x - self.goal_pos.0) * (world_x - self.goal_pos.0)
                + (world_y - self.goal_pos.1) * (world_y - self.goal_pos.1) < threshold * threshold),
    {
        let dx: i128 = world_x as i128 - self.goal_pos.0 as i128;
        let dy: i128 = world_y as i128 - self.goal_pos.1 as i128;
        assert(dx * dx <= 0x8000_0000_0000_0000 * 0x8000_0000_0000_0000) by (nonlinear_arith)
            requires -0x8000_0000_0000_0000 <= dx <= 0x8000_0000_0000_0000;
        assert(dy * dy <= 0x8000_0000_0000_0000 * 0x8000_0000_0000_0000) by (nonlinear_arith)
            requires -0x8000_0000_0000_0000 <= dy <= 0x8000_0000_0000_0000;
        assert(dx * dx >= 0 && dy * dy >= 0) by (nonlinear_arith);
        assert(threshold * threshold <= 0x4000_0000_0000_0000 * 0x4000_0000_0000_0000) by (nonlinear_arith)
            requires threshold <= 0x4000_0000_0000_0000;
        let d2: u128 = (dx * dx) as u128 + (dy * dy) as u128;
        d2 < threshold as u128 * threshold as u128
    }

    /// The character stored at (x, y), or `None` where the rows do not reach.
    pub fn get_tile(&self, x: usize, y: usize) -> (r: Option<char>)
        ensures
            r == tile_at(self.map@, x as int, y as int),
    {
        if y < self.map.len() && x < self.map[y].len() {
            Some(self.map[y][x])
        } else {
            None
        }
    }

    /// Whether (x, y) is opaque: a wall `'#'`, an exit door `'E'`, or a cell off the grid.
    pub fn is_wall(&self, x: usize, y: usize) -> (r: bool)
        ensures
            r == self.blocks(x as int, y as int),
    {
        if x >= self.width || y >= self.height {
            return true;
        }
        match self.get_tile(x, y) {
            Some(c) => c == '#' || c == 'E',
            None => true,
        }
    }

    /// `'#'` or `'E'` for an opaque cell, `' '` for any other.
    pub fn get_wall_type(&self, x: usize, y: usize) -> (r: char)
        ensures
            r == match tile_at(self.map@, x as int, y as int) {
                Some('#') => '#',
                Some('E') => 'E',
                _ => ' ',
            },
    {
        match self.get_tile(x, y) {
            Some('#') => '#',
            Some('E') => 'E',
            _ => ' ',
        }
    }

    /// The texture family of (x, y), for cells that may lie off the grid.
    pub fn wall_type_of(&self, x: i64, y: i64) -> (r: WallType)
        ensures
            r == wall_type_at(self.map@, x as int, y as int),
    {
        if x < 0 || y < 0 {
            WallType::Normal
        } else if y as u64 >= self.map.len() as u64 || x as u64 >= self.map[y as usize].len() as u64 {
            WallType::Normal
        } else if self.map[y as usize][x as usize] == 'E' {
            WallType::Exit
        } else {
            WallType::Normal
        }
    }
}

} // verus!
