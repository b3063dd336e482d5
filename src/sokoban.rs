//! A small box-pushing puzzle offered as one of the catalog's actions.
use vstd::prelude::*;

verus! {

#[derive(Debug, Clone, Copy, PartialEq, Eq, Structural)]
pub enum Tile {
    Wall,
    Floor,
    Target,
}

/// A puzzle level: a grid of tiles, the player, the boxes and the move count.
#[derive(Debug)]
pub struct SokobanGame {
    pub level: Vec<Vec<Tile>>,
    pub player: (usize, usize),
    pub boxes: Vec<(usize, usize)>,
    pub moves: u32,
    pub is_complete: bool,
}

/// The starting level as a picture: `#` wall, `.` target, `@` player, `$` box.
pub open spec fn puzzle_rows() -> Seq<Seq<char>> {
    seq![
        "  ########"@,
        "  #..    #"@,
        "  #@$    #"@,
        "  #####  #"@,
        "    # $  #"@,
        "    #    #"@,
        "    ######"@,
    ]
}

/// The tile that a character of the picture stands for.
pub open spec fn tile_of(c: char) -> Tile {
    if c == '#' {
        Tile::Wall
    } else if c == '.' {
        Tile::Target
    } else {
        Tile::Floor
    }
}

/// The boxes (`$`) in columns before `x` of row `r`, which is row `y`, left to right.
pub open spec fn row_boxes(r: Seq<char>, y: int, x: int) -> Seq<(usize, usize)>
    decreases x,
{
    if x <= 0 {
        Seq::empty()
    } else if r[x - 1] == '$' {
        row_boxes(r, y, x - 1).push(((x - 1) as usize, y as usize))
    } else {
        row_boxes(r, y, x - 1)
    }
}

/// The boxes in the rows before `y`, row by row.
pub open spec fn boxes_upto(rows: Seq<Seq<char>>, y: int) -> Seq<(usize, usize)>
    decreases y,
{
    if y <= 0 {
        Seq::empty()
    } else {
        boxes_upto(rows, y - 1) + row_boxes(rows[y - 1], y - 1, rows[y - 1].len() as int)
    }
}

/// The last player mark (`@`) in columns before `x` of row `r`, else `p`.
pub open spec fn row_player(r: Seq<char>, y: int, x: int, p: (usize, usize)) -> (usize, usize)
    decreases x,
{
    if x <= 0 {
        p
    } else if r[x - 1] == '@' {
        ((x - 1) as usize, y as usize)
    } else {
        row_player(r, y, x - 1, p)
    }
}

/// The last player mark in the rows before `y`, else the top-left corner.
pub open spec fn player_upto(rows: Seq<Seq<char>>, y: int) -> (usize, usize)
    decreases y,
{
    if y <= 0 {
        (0, 0)
    } else {
        row_player(rows[y - 1], y - 1, rows[y - 1].len() as int, player_upto(rows, y - 1))
    }
}

/// The tile at column `x`, row `y`, or `None` outside the grid.
pub open spec fn tile_at(level: Seq<Vec<Tile>>, x: int, y: int) -> Option<Tile> {
    if 0 <= y < level.len() && 0 <= x < level[y]@.len() {
        Some(level[y]@[x])
    } else {
        None
    }
}

/// The square cannot be entered: it is a wall or lies outside the grid.
pub open spec fn blocked(level: Seq<Vec<Tile>>, x: int, y: int) -> bool {
    tile_at(level, x, y) != Some(Tile::Floor) && tile_at(level, x, y) != Some(Tile::Target)
}

pub open spec fn has_box(boxes: Seq<(usize, usize)>, x: int, y: int) -> bool {
    exists|i: int| 0 <= i < boxes.len() && #[trigger] boxes[i].0 as int == x && boxes[i].1 as int == y
}

/// Every target square holds a box.
pub open spec fn all_covered(level: Seq<Vec<Tile>>, boxes: Seq<(usize, usize)>) -> bool {
    forall|x: int, y: int| #[trigger] tile_at(level, x, y) == Some(Tile::Target) ==> has_box(boxes, x, y)
}

/// `k` is the first index of a box standing on `(x, y)`.
pub open spec fn first_box(boxes: Seq<(usize, usize)>, x: int, y: int, k: int) -> bool {
    &&& 0 <= k < boxes.len()
    &&& boxes[k].0 as int == x && boxes[k].1 as int == y
    &&& forall|j: int| 0 <= j < k ==> !(#[trigger] boxes[j].0 as int == x && boxes[j].1 as int == y)
}

/// The result of one step by `(dx, dy)`: the player walks onto a free square, or
/// pushes the first box standing there onto a free square beyond it; otherwise,
/// and once the level is complete, nothing changes.
pub open spec fn stepped(o: SokobanGame, f: SokobanGame, dx: int, dy: int) -> bool {
    let nx = o.player.0 + dx;
    let ny = o.player.1 + dy;
    let bx = nx + dx;
    let by = ny + dy;
    let stays = o.is_complete || blocked(o.level@, nx, ny) || (has_box(o.boxes@, nx, ny) && (blocked(
        o.level@,
        bx,
        by,
    ) || has_box(o.boxes@, bx, by)));
    &&& stays ==> f == o
    &&& !stays ==> {
        &&& f.level == o.level
        &&& f.player.0 as int == nx && f.player.1 as int == ny
        &&& f.moves == o.moves + 1
        &&& f.is_complete == all_covered(f.level@, f.boxes@)
        &&& !has_box(o.boxes@, nx, ny) ==> f.boxes == o.boxes
        &&& has_box(o.boxes@, nx, ny) ==> exists|k: int|
            first_box(o.boxes@, nx, ny, k) && f.boxes@ == o.boxes@.update(k, (bx as usize, by as usize))
    }
}

impl SokobanGame {
    /// The grid is rectangular and the player and every box stand inside it.
    pub open spec fn wf(&self) -> bool {
        &&& self.level@.len() > 0
        &&& forall|y: int| 0 <= y < self.level@.len() ==> (#[trigger] self.level@[y])@.len() == self.width()
        &&& self.player.0 < self.width() && self.player.1 < self.level@.len()
        &&& forall|i: int|
            0 <= i < self.boxes@.len() ==> (#[trigger] self.boxes@[i]).0 < self.width() && self.boxes@[i].1
                < self.level@.len()
    }

    /// The length of every row.
    pub open spec fn width(&self) -> nat {
        self.level@[0]@.len()
    }

    /// The level that `new` lays out, before any move.
    pub open spec fn is_initial_level(&self) -> bool {
        &&& self.is_fresh()
        &&& self.level@.len() == 7
        &&& forall|y: int| 0 <= y < 7 ==> (#[trigger] self.level@[y])@.len() == 10
        &&& forall|x: int, y: int|
            0 <= y < 7 && 0 <= x < 10 ==> #[trigger] self.level@[y]@[x] == tile_of(puzzle_rows()[y][x])
        &&& self.player == (3usize, 2usize)
        &&& self.boxes@ == seq![(4usize, 2usize), (6usize, 4usize)]
        &&& !self.is_complete
    }

    /// The level as first laid out: no moves made.
    pub open spec fn is_fresh(&self) -> bool {
        &&& self.wf()
        &&& self.moves == 0
        &&& self.is_complete == all_covered(self.level@, self.boxes@)
    }

    /// The level laid out by `puzzle_rows`: player at (3, 2), boxes at (4, 2) and
    /// (6, 4), targets where the picture has `.`, no moves made.
    pub fn new() -> (r: Self)
        ensures
            r.is_initial_level(),
    {
        let layout: Vec<&str> = vec![
            "  ########",
            "  #..    #",
            "  #@$    #",
            "  #####  #",
            "    # $  #",
            "    #    #",
            "    ######",
        ];
        let ghost rows = layout@.map_values(|s: &str| s@);
        proof {
            reveal_strlit("  ########");
            reveal_strlit("  #..    #");
            reveal_strlit("  #@$    #");
            reveal_strlit("  #####  #");
            reveal_strlit("    # $  #");
            reveal_strlit("    #    #");
            reveal_strlit("    ######");
            assert(rows =~= puzzle_rows());
            assert forall|k: int| 0 <= k < 7 implies #[trigger] rows[k].len() == 10 by {
                if k == 0 {
                } else if k == 1 {
                } else if k == 2 {
                } else if k == 3 {
                } else if k == 4 {
                } else if k == 5 {
                } else {
                }
            }
        }
        let height = layout.len();
        let mut width: usize = 0;
        let mut i: usize = 0;
        while i < height
            invariant
                height == layout@.len(),
                rows == layout@.map_values(|s: &str| s@),
                rows == puzzle_rows(),
                height == 7,
                forall|k: int| 0 <= k < 7 ==> #[trigger] rows[k].len() == 10,
                i <= height,
                i > 0 ==> width == 10,
                i == 0 ==> width == 0,
            decreases height - i,
        {
            let n = layout[i].unicode_len();
            assert(rows[i as int] == layout@[i as int]@);
            if n > width {
                width = n;
            }
            i += 1;
        }
        let mut level: Vec<Vec<Tile>> = Vec::new();
        let mut player: (usize, usize) = (0, 0);
        let mut boxes: Vec<(usize, usize)> = Vec::new();
        let mut y: usize = 0;
        while y < height
            invariant
                height == layout@.len(),
                rows == layout@.map_values(|s: &str| s@),
                rows == puzzle_rows(),
                height == 7,
                forall|k: int| 0 <= k < 7 ==> #[trigger] rows[k].len() == 10,
                width == 10,
                y <= height,
                level@.len() == y,
                forall|k: int, x: int|
                    0 <= k < y && 0 <= x < 10 ==> (#[trigger] level@[k]@[x]) == tile_of(rows[k][x]),
                forall|k: int| 0 <= k < y ==> (#[trigger] level@[k])@.len() == 10,
                boxes@ == boxes_upto(rows, y as int),
                player == player_upto(rows, y as int),
            decreases height - y,
        {
            let row_str = layout[y];
            let n = row_str.unicode_len();
            let ghost r = rows[y as int];
            assert(row_str@ == r);
            let mut row: Vec<Tile> = Vec::new();
            let mut x: usize = 0;
            while x < n
                invariant
                    n == row_str@.len(),
                    r == row_str@,
                    n == 10,
                    y < height,
                    x <= n,
                    row@.len() == x,
                    forall|xx: int| 0 <= xx < x ==> (#[trigger] row@[xx]) == tile_of(r[xx]),
                    boxes@ == boxes_upto(rows, y as int) + row_boxes(r, y as int, x as int),
                    player == row_player(r, y as int, x as int, player_upto(rows, y as int)),
                decreases n - x,
            {
                let c = row_str.get_char(x);
                let ghost before = boxes@;
                if c == '#' {
                    row.push(Tile::Wall);
                } else if c == '@' {
                    player = (x, y);
                    row.push(Tile::Floor);
                } else if c == '$' {
                    boxes.push((x, y));
                    row.push(Tile::Floor);
                } else if c == '.' {
                    row.push(Tile::Target);
                } else {
                    row.push(Tile::Floor);
                }
                assert(boxes@ =~= boxes_upto(rows, y as int) + row_boxes(r, y as int, x + 1));
                x += 1;
            }
            while row.len() < width
                invariant
                    n <= row@.len() <= width,
                    n == r.len(),
                    forall|xx: int| 0 <= xx < n ==> (#[trigger] row@[xx]) == tile_of(r[xx]),
                decreases width - row@.len(),
            {
                row.push(Tile::Floor);
            }
            level.push(row);
            assert(boxes_upto(rows, y + 1) == boxes_upto(rows, y as int) + row_boxes(r, y as int, 10));
            y += 1;
        }
        proof {
            reveal_with_fuel(boxes_upto, 8);
            reveal_with_fuel(row_boxes, 11);
            reveal_with_fuel(player_upto, 8);
            reveal_with_fuel(row_player, 11);
            assert(boxes@ =~= seq![(4usize, 2usize), (6usize, 4usize)]);
        }
        let mut game = SokobanGame { level, player, boxes, moves: 0, is_complete: false };
        game.check_win_condition();
        proof {
            assert(tile_at(game.level@, 3, 1) == Some(Tile::Target));
            assert(!has_box(game.boxes@, 3, 1));
        }
        game
    }

    /// Whether a box stands on `(x, y)`; returns the first such box.
    fn box_index(&self, x: usize, y: usize) -> (r: Option<usize>)
        ensures
            r is None <==> !has_box(self.boxes@, x as int, y as int),
            r matches Some(k) ==> first_box(self.boxes@, x as int, y as int, k as int),
    {
        let mut i: usize = 0;
        while i < self.boxes.len()
            invariant
                i <= self.boxes@.len(),
                forall|j: int|
                    0 <= j < i ==> !(#[trigger] self.boxes@[j].0 as int == x && self.boxes@[j].1 as int
                        == y),
            decreases self.boxes@.len() - i,
        {
            if self.boxes[i].0 == x && self.boxes[i].1 == y {
                return Some(i);
            }
            i += 1;
        }
        None
    }

    /// Moves the player one step by `(dx, dy)`, pushing a box ahead if one stands there.
    /// Walls, the edge of the grid, and a box that cannot be pushed stop the move.
    pub fn move_player(&mut self, dx: i32, dy: i32)
        requires
            old(self).wf(),
            old(self).moves < u32::MAX,
        ensures
            final(self).wf(),
            stepped(*old(self), *final(self), dx as int, dy as int),
    {
        if self.is_complete {
            return;
        }
        let width = self.level[0].len();
        let height = self.level.len();
        let nx: i128 = self.player.0 as i128 + dx as i128;
        let ny: i128 = self.player.1 as i128 + dy as i128;
        if nx < 0 || ny < 0 || nx >= width as i128 || ny >= height as i128 {
            return;
        }
        let nx = nx as usize;
        let ny = ny as usize;
        if self.level[ny][nx] == Tile::Wall {
            return;
        }
        if let Some(k) = self.box_index(nx, ny) {
            let bx: i128 = nx as i128 + dx as i128;
            let by: i128 = ny as i128 + dy as i128;
            if bx < 0 || by < 0 || bx >= width as i128 || by >= height as i128 {
                return;
            }
            let bx = bx as usize;
            let by = by as usize;
            if self.level[by][bx] == Tile::Wall {
                return;
            }
            if self.box_index(bx, by).is_some() {
                return;
            }
            self.boxes.set(k, (bx, by));
        }
        self.player = (nx, ny);
        self.moves = self.moves + 1;
        self.check_win_condition();
    }

    /// Whether every target square holds a box.
    fn covered(&self) -> (r: bool)
        requires
            self.wf(),
        ensures
            r == all_covered(self.level@, self.boxes@),
    {
        let mut y: usize = 0;
        while y < self.level.len()
            invariant
                self.wf(),
                y <= self.level@.len(),
                forall|x: int, yy: int|
                    0 <= yy < y && #[trigger] tile_at(self.level@, x, yy) == Some(Tile::Target) ==> has_box(
                        self.boxes@,
                        x,
                        yy,
                    ),
            decreases self.level@.len() - y,
        {
            let row = &self.level[y];
            let mut x: usize = 0;
            while x < row.len()
                invariant
                    self.wf(),
                    y < self.level@.len(),
                    row == self.level@[y as int],
                    x <= row@.len(),
                    forall|xx: int, yy: int|
                        0 <= yy < y && #[trigger] tile_at(self.level@, xx, yy) == Some(Tile::Target)
                            ==> has_box(self.boxes@, xx, yy),
                    forall|xx: int|
                        0 <= xx < x && #[trigger] tile_at(self.level@, xx, y as int) == Some(Tile::Target)
                            ==> has_box(self.boxes@, xx, y as int),
                decreases row@.len() - x,
            {
                if row[x] == Tile::Target {
                    if self.box_index(x, y).is_none() {
                        assert(tile_at(self.level@, x as int, y as int) == Some(Tile::Target));
                        return false;
                    }
                }
                x += 1;
            }
            y += 1;
        }
        true
    }

    fn check_win_condition(&mut self)
        requires
            old(self).wf(),
        ensures
            *final(self) == (SokobanGame { is_complete: all_covered(old(self).level@, old(self).boxes@), ..*old(self) }),
    {
        self.is_complete = self.covered();
    }

    /// Puts the level back as it was first laid out.
    pub fn reset(&mut self)
        ensures
            final(self).is_initial_level(),
    {
        *self = Self::new();
    }
}

} // verus!
