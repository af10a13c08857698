//! Level layouts: reading a level from its image, the generated overworld, tile
//! classification for autotiling, and what to place where.
use vstd::prelude::*;

use crate::geometry::{Aabb, Transform, Vec2, Vec3};
use crate::guy::{Portal, Wall};
use crate::SUBPIXELS;

verus! {

/// A tile position: `x` to the right, `y` downward, in whole tiles.
#[derive(Clone, Copy, Debug, PartialEq, Eq, Structural)]
pub struct IVec2 {
    pub x: i32,
    pub y: i32,
}

#[derive(Debug)]
pub enum LevelContents {
    Player,
    Tile,
    /// A portal to the level stored at this path.
    Portal(String),
}

/// What stands at each occupied tile position.
#[derive(Debug)]
pub struct Level(pub Vec<(IVec2, LevelContents)>);

#[derive(Debug, PartialEq, Eq, Structural)]
pub enum LevelParseError {
    /// A level needs exactly one player; this many were found.
    WrongNumberPlayers(usize),
}

/// A level to be read from a file, or the overworld, which is generated.
#[derive(Debug)]
pub enum LoadingLevel {
    Path(String),
    Overworld,
}

/// An image in 8-bit RGBA, row after row from the top, four bytes per pixel.
#[derive(Debug)]
pub struct LevelImage {
    pub width: u32,
    pub height: u32,
    pub data: Vec<u8>,
}

impl LevelImage {
    pub open spec fn pixel_count(self) -> int {
        self.width as int * self.height as int
    }

    pub open spec fn wf(self) -> bool {
        &&& self.data@.len() == 4 * self.pixel_count()
        &&& self.pixel_count() <= i32::MAX
    }

    /// The colour of pixel `i` in reading order, as (red, green, blue, alpha).
    pub open spec fn pixel(self, i: int) -> (u8, u8, u8, u8) {
        (self.data@[4 * i], self.data@[4 * i + 1], self.data@[4 * i + 2], self.data@[4 * i + 3])
    }

    /// Tile position of pixel `i` in reading order.
    pub open spec fn pixel_pos(self, i: int) -> IVec2 {
        IVec2 { x: (i % (self.width as int)) as i32, y: (i / (self.width as int)) as i32 }
    }

    /// Opaque black is a wall tile, opaque red the player, anything else nothing.
    pub open spec fn pixel_contents(self, i: int) -> Option<LevelContents> {
        if self.pixel(i) == (0u8, 0u8, 0u8, 255u8) {
            Some(LevelContents::Tile)
        } else if self.pixel(i) == (255u8, 0u8, 0u8, 255u8) {
            Some(LevelContents::Player)
        } else {
            None
        }
    }

    /// What the first `n` pixels place, in reading order.
    pub open spec fn scanned(self, n: int) -> Seq<(IVec2, LevelContents)>
        decreases n,
    {
        if n <= 0 {
            Seq::empty()
        } else {
            match self.pixel_contents(n - 1) {
                Some(c) => self.scanned(n - 1).push((self.pixel_pos(n - 1), c)),
                None => self.scanned(n - 1),
            }
        }
    }

    /// Number of player pixels among the first `n`.
    pub open spec fn players(self, n: int) -> nat
        decreases n,
    {
        if n <= 0 {
            0
        } else if self.pixel_contents(n - 1) == Some(LevelContents::Player) {
            self.players(n - 1) + 1
        } else {
            self.players(n - 1)
        }
    }
}

/// No two entries share a position.
pub open spec fn distinct_positions(entries: Seq<(IVec2, LevelContents)>) -> bool {
    forall|i: int, j: int|
        0 <= i < j < entries.len() ==> (#[trigger] entries[i]).0 != (#[trigger] entries[j]).0
}

proof fn lemma_pixel_pos_injective(img: LevelImage, k: int, m: int)
    requires
        img.wf(),
        0 <= k < m < img.pixel_count(),
    ensures
        img.pixel_pos(k) != img.pixel_pos(m),
{
    let w = img.width as int;
    assert(w > 0) by (nonlinear_arith)
        requires
            m < w * img.height,
            0 <= m,
            w >= 0,
    ;
    vstd::arithmetic::div_mod::lemma_fundamental_div_mod(k, w);
    vstd::arithmetic::div_mod::lemma_fundamental_div_mod(m, w);
    vstd::arithmetic::div_mod::lemma_mod_bound(k, w);
    vstd::arithmetic::div_mod::lemma_mod_bound(m, w);
    vstd::arithmetic::div_mod::lemma_div_is_ordered_by_denominator(k, 1, w);
    vstd::arithmetic::div_mod::lemma_div_is_ordered_by_denominator(m, 1, w);
    vstd::arithmetic::div_mod::lemma_div_is_ordered(k, m, w);
    if k % w == m % w && k / w == m / w {
        assert(k == m);
    }
}

/// Every entry read from the first `n` pixels of an image sits at the position of one
/// of those pixels, and no two entries share a position.
pub proof fn lemma_scanned_distinct(img: LevelImage, n: int)
    requires
        img.wf(),
        0 <= n <= img.pixel_count(),
    ensures
        forall|i: int|
            0 <= i < img.scanned(n).len() ==> exists|k: int|
                0 <= k < n && (#[trigger] img.scanned(n)[i]).0 == img.pixel_pos(k),
        distinct_positions(img.scanned(n)),
    decreases n,
{
    if n > 0 {
        lemma_scanned_distinct(img, n - 1);
        let prev = img.scanned(n - 1);
        let cur = img.scanned(n);
        if img.pixel_contents(n - 1) is Some {
            assert forall|i: int| 0 <= i < prev.len() implies (#[trigger] cur[i]).0 != img.pixel_pos(
                n - 1,
            ) by {
                assert(cur[i] == prev[i]);
                let k = choose|k: int| 0 <= k < n - 1 && (#[trigger] prev[i]).0 == img.pixel_pos(k);
                lemma_pixel_pos_injective(img, k, n - 1);
            }
            assert forall|i: int| 0 <= i < cur.len() implies exists|k: int|
                0 <= k < n && (#[trigger] cur[i]).0 == img.pixel_pos(k) by {
                if i < prev.len() {
                    assert(cur[i] == prev[i]);
                    let k = choose|k: int| 0 <= k < n - 1 && (#[trigger] prev[i]).0 == img.pixel_pos(k);
                    assert(0 <= k < n && cur[i].0 == img.pixel_pos(k));
                } else {
                    assert(cur[i].0 == img.pixel_pos(n - 1));
                }
            }
            assert forall|i: int, j: int| 0 <= i < j < cur.len() implies (#[trigger] cur[i]).0 != (
            #[trigger] cur[j]).0 by {
                if j < prev.len() {
                    assert(cur[i] == prev[i] && cur[j] == prev[j]);
                }
            }
        } else {
            assert forall|i: int| 0 <= i < cur.len() implies exists|k: int|
                0 <= k < n && (#[trigger] cur[i]).0 == img.pixel_pos(k) by {
                let k = choose|k: int| 0 <= k < n - 1 && (#[trigger] prev[i]).0 == img.pixel_pos(k);
                assert(0 <= k < n && cur[i].0 == img.pixel_pos(k));
            }
        }
    }
}

impl Level {
    /// A level holds at most one thing at each position.
    pub open spec fn wf(self) -> bool {
        distinct_positions(self.0@)
    }

    /// Read a level from its image: a wall tile at each opaque black pixel, the player at
    /// each opaque red one. Exactly one player is required.
    pub fn from_rgba(level_image: &LevelImage) -> (r: Result<Level, LevelParseError>)
        requires
            level_image.wf(),
        ensures
            level_image.players(level_image.pixel_count()) == 1 ==> (r matches Ok(l) && l.0@
                == level_image.scanned(level_image.pixel_count())),
            r matches Ok(l) ==> l.wf(),
            level_image.players(level_image.pixel_count()) != 1 ==> r == Err::<Level, _>(
                LevelParseError::WrongNumberPlayers(
                    level_image.players(level_image.pixel_count()) as usize,
                ),
            ),
    {
        let len: usize = level_image.data.len();
        let n: usize = len / 4;
        let w: usize = level_image.width as usize;
        let mut entries: Vec<(IVec2, LevelContents)> = Vec::new();
        let mut player_count: usize = 0;
        let mut i: usize = 0;
        while i < n
            invariant
                level_image.wf(),
                n == level_image.pixel_count(),
                level_image.data@.len() == 4 * n,
                4 * n <= usize::MAX,
                w == level_image.width,
                i <= n,
                entries@ == level_image.scanned(i as int),
                player_count == level_image.players(i as int),
                player_count <= i,
            decreases n - i,
        {
            proof {
                assert(w > 0) by (nonlinear_arith)
                    requires
                        i < n,
                        n == w * level_image.height,
                ;
                vstd::arithmetic::div_mod::lemma_div_is_ordered_by_denominator(i as int, 1, w as int);
                vstd::arithmetic::div_mod::lemma_mod_bound(i as int, w as int);
                vstd::arithmetic::div_mod::lemma_fundamental_div_mod(i as int, w as int);
                let q = (i as int) / (w as int);
                assert(w * q >= 0) by (nonlinear_arith)
                    requires
                        w > 0,
                        q >= 0,
                ;
            }
            let base = 4 * i;
            let red = level_image.data[base];
            let green = level_image.data[base + 1];
            let blue = level_image.data[base + 2];
            let alpha = level_image.data[base + 3];
            let pos = IVec2 { x: (i % w) as i32, y: (i / w) as i32 };
            if red == 0 && green == 0 && blue == 0 && alpha == 255 {
                entries.push((pos, LevelContents::Tile));
            } else if red == 255 && green == 0 && blue == 0 && alpha == 255 {
                player_count = player_count + 1;
                entries.push((pos, LevelContents::Player));
            }
            i = i + 1;
        }
        proof {
            lemma_scanned_distinct(*level_image, n as int);
        }
        if player_count != 1 {
            Err(LevelParseError::WrongNumberPlayers(player_count))
        } else {
            Ok(Level(entries))
        }
    }
}

/// Some entry of `entries` is a wall tile at `p`.
pub open spec fn tile_at(entries: Seq<(IVec2, LevelContents)>, p: IVec2) -> bool {
    exists|i: int| 0 <= i < entries.len() && (#[trigger] entries[i]).0 == p && entries[i].1 == LevelContents::Tile
}

/// Four bits of wall-tile neighbours: 1 above, 2 left, 4 right, 8 below.
pub open spec fn autotile_code(above: bool, left: bool, right: bool, below: bool) -> int {
    (if above { 1int } else { 0int }) + (if left { 2int } else { 0int }) + (if right { 4int } else { 0int }) + (
    if below {
        8int
    } else {
        0int
    })
}

/// The neighbour code of tile position `p` among `entries`.
pub open spec fn neighbour_code(entries: Seq<(IVec2, LevelContents)>, p: IVec2) -> int {
    autotile_code(
        tile_at(entries, IVec2 { x: p.x, y: (p.y - 1) as i32 }),
        tile_at(entries, IVec2 { x: (p.x - 1) as i32, y: p.y }),
        tile_at(entries, IVec2 { x: (p.x + 1) as i32, y: p.y }),
        tile_at(entries, IVec2 { x: p.x, y: (p.y + 1) as i32 }),
    )
}

/// A position whose four neighbours are representable.
pub open spec fn inner_pos(p: IVec2) -> bool {
    i32::MIN < p.x < i32::MAX && i32::MIN < p.y < i32::MAX
}

impl Level {
    /// There is a wall tile at `p`.
    pub fn has_tile(&self, p: IVec2) -> (r: bool)
        ensures
            r == tile_at(self.0@, p),
    {
        let mut i: usize = 0;
        while i < self.0.len()
            invariant
                i <= self.0@.len(),
                forall|j: int|
                    0 <= j < i ==> !((#[trigger] self.0@[j]).0 == p && self.0@[j].1
                        == LevelContents::Tile),
            decreases self.0.len() - i,
        {
            let entry = &self.0[i];
            let is_tile = match entry.1 {
                LevelContents::Tile => true,
                _ => false,
            };
            if entry.0 == p && is_tile {
                return true;
            }
            i = i + 1;
        }
        false
    }
}

/// Classify a tile by which of its four neighbours are wall tiles, as four bits:
/// 1 above, 2 left, 4 right, 8 below (`y` grows downward).
pub fn classify_autotile(position: &IVec2, level: &Level) -> (r: usize)
    requires
        inner_pos(*position),
    ensures
        r == neighbour_code(level.0@, *position),
        r <= 15,
{
    let above = IVec2 { x: position.x, y: position.y - 1 };
    let left = IVec2 { x: position.x - 1, y: position.y };
    let right = IVec2 { x: position.x + 1, y: position.y };
    let below = IVec2 { x: position.x, y: position.y + 1 };
    let mut ret: usize = 0;
    if level.has_tile(above) {
        ret = ret + 1;
    }
    if level.has_tile(left) {
        ret = ret + 2;
    }
    if level.has_tile(right) {
        ret = ret + 4;
    }
    if level.has_tile(below) {
        ret = ret + 8;
    }
    ret
}

/// Index of cell (`x`, `y`) in a row-major grid `width` cells wide.
pub fn index2d_to_1d(x: usize, y: usize, width: usize) -> (r: usize)
    requires
        y * width + x <= usize::MAX,
    ensures
        r == y * width + x,
{
    y * width + x
}

/// Cells per row of the tile sheet.
pub const SHEET_WIDTH: usize = 20;

/// Sheet column for a tile with wall neighbours on the left and/or right.
pub open spec fn sheet_column(left: bool, right: bool) -> int {
    if left && right {
        2
    } else if left {
        3
    } else if right {
        1
    } else {
        0
    }
}

/// Sheet row for a tile with wall neighbours above and/or below.
pub open spec fn sheet_row(above: bool, below: bool) -> int {
    if above && below {
        6
    } else if above {
        7
    } else if below {
        1
    } else {
        0
    }
}

/// Sheet cell of the tile picture for neighbour code `n`.
pub open spec fn sheet_index(n: int) -> int {
    let above = n % 2 == 1;
    let left = (n / 2) % 2 == 1;
    let right = (n / 4) % 2 == 1;
    let below = (n / 8) % 2 == 1;
    sheet_row(above, below) * SHEET_WIDTH + sheet_column(left, right)
}

/// The tile sheet cell that pictures a tile of neighbour code `n`.
pub fn autotile_code_to_spritesheet_index(n: usize) -> (r: usize)
    requires
        n <= 15,
    ensures
        r == sheet_index(n as int),
{
    match n {
        0 => index2d_to_1d(0, 0, SHEET_WIDTH),
        1 => index2d_to_1d(0, 7, SHEET_WIDTH),
        2 => index2d_to_1d(3, 0, SHEET_WIDTH),
        3 => index2d_to_1d(3, 7, SHEET_WIDTH),
        4 => index2d_to_1d(1, 0, SHEET_WIDTH),
        5 => index2d_to_1d(1, 7, SHEET_WIDTH),
        6 => index2d_to_1d(2, 0, SHEET_WIDTH),
        7 => index2d_to_1d(2, 7, SHEET_WIDTH),
        8 => index2d_to_1d(0, 1, SHEET_WIDTH),
        9 => index2d_to_1d(0, 6, SHEET_WIDTH),
        10 => index2d_to_1d(3, 1, SHEET_WIDTH),
        11 => index2d_to_1d(3, 6, SHEET_WIDTH),
        12 => index2d_to_1d(1, 1, SHEET_WIDTH),
        13 => index2d_to_1d(1, 6, SHEET_WIDTH),
        14 => index2d_to_1d(2, 1, SHEET_WIDTH),
        _ => index2d_to_1d(2, 6, SHEET_WIDTH),
    }
}

/// Tiles of ground under each overworld portal.
pub const TILES_PER_LEVEL: usize = 5;

/// Entries per overworld stretch: the ground tiles and the portal.
pub const ENTRIES_PER_LEVEL: usize = 6;

/// Entry `idx` of the overworld for `paths`. Stretch `i` holds, from entry `6 i`, the
/// ground tiles `(5 i + k, 0)` for `k` below 5, then the portal to `paths[i]` at
/// `(5 i + 2, -1)`, above the middle tile. After the last stretch stands the player at
/// `(0, -1)`.
pub open spec fn overworld_entry(paths: Seq<String>, idx: int) -> (IVec2, LevelContents) {
    let i = idx / ENTRIES_PER_LEVEL as int;
    let k = idx % ENTRIES_PER_LEVEL as int;
    if idx == ENTRIES_PER_LEVEL * paths.len() {
        (IVec2 { x: 0, y: -1i32 }, LevelContents::Player)
    } else if k < TILES_PER_LEVEL {
        (IVec2 { x: (i * TILES_PER_LEVEL + k) as i32, y: 0 }, LevelContents::Tile)
    } else {
        (IVec2 { x: (i * TILES_PER_LEVEL + 2) as i32, y: -1i32 }, LevelContents::Portal(paths[i]))
    }
}

impl Level {
    /// The overworld: one stretch of ground with a portal for each level path, in order,
    /// and the player above the first tile.
    pub fn generate_overworld_level(level_paths: &Vec<String>) -> (r: Level)
        requires
            level_paths@.len() * TILES_PER_LEVEL + TILES_PER_LEVEL <= i32::MAX,
        ensures
            r.0@.len() == ENTRIES_PER_LEVEL * level_paths@.len() + 1,
            forall|idx: int|
                0 <= idx < r.0@.len() ==> #[trigger] r.0@[idx] == overworld_entry(level_paths@, idx),
            r.wf(),
    {
        let mut entries: Vec<(IVec2, LevelContents)> = Vec::new();
        let mut i: usize = 0;
        while i < level_paths.len()
            invariant
                i <= level_paths@.len(),
                level_paths@.len() * TILES_PER_LEVEL + TILES_PER_LEVEL <= i32::MAX,
                entries@.len() == ENTRIES_PER_LEVEL * i,
                forall|idx: int|
                    0 <= idx < entries@.len() ==> #[trigger] entries@[idx] == overworld_entry(
                        level_paths@,
                        idx,
                    ),
            decreases level_paths.len() - i,
        {
            let offset = i * TILES_PER_LEVEL;
            let mut k: usize = 0;
            while k < TILES_PER_LEVEL
                invariant
                    k <= TILES_PER_LEVEL,
                    i < level_paths@.len(),
                    offset == i * TILES_PER_LEVEL,
                    level_paths@.len() * TILES_PER_LEVEL + TILES_PER_LEVEL <= i32::MAX,
                    entries@.len() == ENTRIES_PER_LEVEL * i + k,
                    forall|idx: int|
                        0 <= idx < entries@.len() ==> #[trigger] entries@[idx] == overworld_entry(
                            level_paths@,
                            idx,
                        ),
                decreases TILES_PER_LEVEL - k,
            {
                proof {
                    vstd::arithmetic::div_mod::lemma_fundamental_div_mod_converse(
                        (6 * i + k) as int,
                        6,
                        i as int,
                        k as int,
                    );
                }
                entries.push((IVec2 { x: (offset + k) as i32, y: 0 }, LevelContents::Tile));
                k = k + 1;
            }
            proof {
                vstd::arithmetic::div_mod::lemma_fundamental_div_mod_converse(
                    (6 * i + 5) as int,
                    6,
                    i as int,
                    5,
                );
            }
            let path = level_paths[i].clone();
            entries.push((IVec2 { x: (offset + 2) as i32, y: -1 }, LevelContents::Portal(path)));
            i = i + 1;
        }
        entries.push((IVec2 { x: 0, y: -1 }, LevelContents::Player));
        proof {
            lemma_overworld_distinct(level_paths@);
        }
        Level(entries)
    }
}

proof fn lemma_overworld_distinct(paths: Seq<String>)
    requires
        paths.len() * TILES_PER_LEVEL + TILES_PER_LEVEL <= i32::MAX,
    ensures
        forall|a: int, b: int|
            0 <= a < b <= ENTRIES_PER_LEVEL * paths.len() ==> (#[trigger] overworld_entry(paths, a)).0
                != (#[trigger] overworld_entry(paths, b)).0,
{
    assert forall|a: int, b: int|
        0 <= a < b <= ENTRIES_PER_LEVEL * paths.len() implies (#[trigger] overworld_entry(
        paths,
        a,
    )).0 != (#[trigger] overworld_entry(paths, b)).0 by {
        vstd::arithmetic::div_mod::lemma_fundamental_div_mod(a, 6);
        vstd::arithmetic::div_mod::lemma_fundamental_div_mod(b, 6);
        vstd::arithmetic::div_mod::lemma_mod_bound(a, 6);
        vstd::arithmetic::div_mod::lemma_mod_bound(b, 6);
        vstd::arithmetic::div_mod::lemma_div_is_ordered(a, b, 6);
        vstd::arithmetic::div_mod::lemma_div_is_ordered(b, 6 * paths.len() as int, 6);
        vstd::arithmetic::div_mod::lemma_div_pos_is_pos(a, 6);
        vstd::arithmetic::div_mod::lemma_fundamental_div_mod_converse(
            6 * paths.len() as int,
            6,
            paths.len() as int,
            0,
        );
    }
}

/// Width of a tile in the world, in sub-pixels.
pub const TILE_WIDTH: i64 = 18 * SUBPIXELS;

/// Bound on tile coordinates that keeps their world positions inside the world bound.
pub const TILE_LIMIT: i32 = 50_000_000;

/// World position of the centre of tile `p`; world `y` grows upward.
pub open spec fn tile_translation(p: IVec2) -> Vec3 {
    Vec3 { x: (p.x * TILE_WIDTH) as i64, y: (-(p.y * TILE_WIDTH)) as i64, z: 0 }
}

/// Extent of a portal's box: 15 pixels square.
pub const PORTAL_SIZE: i64 = 15 * SUBPIXELS;

/// What to place in the world for a level entry.
#[derive(Debug)]
pub enum Spawn {
    /// The controlled body, standing at `translation`.
    Player { translation: Vec3 },
    /// A solid tile, pictured by cell `tile_index` of the tile sheet.
    Tile { wall: Wall, tile_index: usize },
    Portal { portal: Portal },
}

/// A box of fixed square extent `size` at `translation`.
pub open spec fn square_at(translation: Vec3, size: i64) -> (Transform, Aabb) {
    (
        Transform { translation, scale: Vec3 { x: 0, y: 0, z: 0 } },
        Aabb::StaticAabb { scale: Vec2 { x: size, y: size } },
    )
}

/// The obstacle of a wall tile centred at `translation`: a tile-sized square.
pub fn tile_wall(translation: Vec3) -> (r: Wall)
    ensures
        r.transform == square_at(translation, TILE_WIDTH).0,
        r.aabb == square_at(translation, TILE_WIDTH).1,
        translation.in_world() ==> r.wf(),
{
    Wall {
        transform: Transform { translation, scale: Vec3 { x: 0, y: 0, z: 0 } },
        aabb: Aabb::StaticAabb { scale: Vec2 { x: TILE_WIDTH, y: TILE_WIDTH } },
    }
}

/// A portal to `path` centred at `translation`, with a portal-sized square box.
pub fn portal_at(translation: Vec3, path: String) -> (r: Portal)
    ensures
        r.path == path,
        r.transform == square_at(translation, PORTAL_SIZE).0,
        r.aabb == square_at(translation, PORTAL_SIZE).1,
        translation.in_world() ==> r.wf(),
{
    Portal {
        path,
        transform: Transform { translation, scale: Vec3 { x: 0, y: 0, z: 0 } },
        aabb: Aabb::StaticAabb { scale: Vec2 { x: PORTAL_SIZE, y: PORTAL_SIZE } },
    }
}

/// The placement for `entry` of a level whose entries are `entries`: a wall tile shows
/// the sheet picture for its neighbour code.
pub open spec fn spawn_of(entries: Seq<(IVec2, LevelContents)>, entry: (IVec2, LevelContents)) -> Spawn {
    let translation = tile_translation(entry.0);
    match entry.1 {
        LevelContents::Player => Spawn::Player { translation },
        LevelContents::Tile => Spawn::Tile {
            wall: Wall {
                transform: square_at(translation, TILE_WIDTH).0,
                aabb: square_at(translation, TILE_WIDTH).1,
            },
            tile_index: sheet_index(neighbour_code(entries, entry.0)) as usize,
        },
        LevelContents::Portal(path) => Spawn::Portal {
            portal: Portal {
                path,
                transform: square_at(translation, PORTAL_SIZE).0,
                aabb: square_at(translation, PORTAL_SIZE).1,
            },
        },
    }
}

pub open spec fn within_tile_limit(p: IVec2) -> bool {
    -TILE_LIMIT <= p.x <= TILE_LIMIT && -TILE_LIMIT <= p.y <= TILE_LIMIT
}

fn tile_to_world(p: IVec2) -> (r: Vec3)
    requires
        within_tile_limit(p),
    ensures
        r == tile_translation(p),
        r.in_world(),
{
    let x = p.x as i64;
    let y = p.y as i64;
    assert(-900_000_000_000 <= x * 18000 <= 900_000_000_000) by (nonlinear_arith)
        requires
            -50_000_000 <= x <= 50_000_000,
    ;
    assert(-900_000_000_000 <= y * 18000 <= 900_000_000_000) by (nonlinear_arith)
        requires
            -50_000_000 <= y <= 50_000_000,
    ;
    Vec3 { x: x * TILE_WIDTH, y: -(y * TILE_WIDTH), z: 0 }
}

/// The placements for every entry of `level`, in order.
pub fn spawn_level(level: &Level) -> (r: Vec<Spawn>)
    requires
        forall|i: int| 0 <= i < level.0@.len() ==> within_tile_limit((#[trigger] level.0@[i]).0),
    ensures
        r@.len() == level.0@.len(),
        forall|i: int| 0 <= i < r@.len() ==> #[trigger] r@[i] == spawn_of(level.0@, level.0@[i]),
        forall|i: int|
            0 <= i < r@.len() ==> match #[trigger] r@[i] {
                Spawn::Player { translation } => translation.in_world(),
                Spawn::Tile { wall, .. } => wall.wf(),
                Spawn::Portal { portal } => portal.wf(),
            },
{
    let mut spawns: Vec<Spawn> = Vec::new();
    let mut i: usize = 0;
    while i < level.0.len()
        invariant
            i <= level.0@.len(),
            spawns@.len() == i,
            forall|j: int| 0 <= j < level.0@.len() ==> within_tile_limit((#[trigger] level.0@[j]).0),
            forall|j: int| 0 <= j < i ==> #[trigger] spawns@[j] == spawn_of(level.0@, level.0@[j]),
            forall|j: int|
                0 <= j < i ==> match #[trigger] spawns@[j] {
                    Spawn::Player { translation } => translation.in_world(),
                    Spawn::Tile { wall, .. } => wall.wf(),
                    Spawn::Portal { portal } => portal.wf(),
                },
        decreases level.0.len() - i,
    {
        let entry = &level.0[i];
        assert(within_tile_limit(level.0@[i as int].0));
        let translation = tile_to_world(entry.0);
        let spawn = match &entry.1 {
            LevelContents::Player => Spawn::Player { translation },
            LevelContents::Tile => {
                let code = classify_autotile(&entry.0, level);
                Spawn::Tile {
                    wall: tile_wall(translation),
                    tile_index: autotile_code_to_spritesheet_index(code),
                }
            },
            LevelContents::Portal(path) => Spawn::Portal {
                portal: portal_at(translation, path.clone()),
            },
        };
        spawns.push(spawn);
        i = i + 1;
    }
    spawns
}

} // verus!
