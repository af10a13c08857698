//! Points, rectangles, bounding boxes and the side-detecting overlap test.
use vstd::prelude::*;

use crate::WORLD_LIMIT;

verus! {

/// A value no larger in magnitude than `WORLD_LIMIT`.
pub open spec fn in_world(v: int) -> bool {
    -WORLD_LIMIT <= v <= WORLD_LIMIT
}

/// A coordinate that a moving body may reach: twice the world bound.
pub open spec fn reachable(v: int) -> bool {
    -2 * WORLD_LIMIT <= v <= 2 * WORLD_LIMIT
}

/// A length usable as the width or height of a box.
pub open spec fn is_size(v: int) -> bool {
    0 <= v <= WORLD_LIMIT
}

#[derive(Clone, Copy, Debug, PartialEq, Eq, Structural)]
pub struct Vec2 {
    pub x: i64,
    pub y: i64,
}

#[derive(Clone, Copy, Debug, PartialEq, Eq, Structural)]
pub struct Vec3 {
    pub x: i64,
    pub y: i64,
    pub z: i64,
}

impl Vec2 {
    pub open spec fn is_size(self) -> bool {
        is_size(self.x as int) && is_size(self.y as int)
    }

    pub open spec fn in_world(self) -> bool {
        in_world(self.x as int) && in_world(self.y as int)
    }

    pub fn new(x: i64, y: i64) -> (r: Vec2)
        ensures
            r.x == x,
            r.y == y,
    {
        Vec2 { x, y }
    }

    /// This vector as a point in 3D, with the given depth.
    pub fn extend(self, z: i64) -> (r: Vec3)
        ensures
            r == (Vec3 { x: self.x, y: self.y, z }),
    {
        Vec3 { x: self.x, y: self.y, z }
    }
}

impl Vec3 {
    pub open spec fn in_world(self) -> bool {
        in_world(self.x as int) && in_world(self.y as int)
    }

    pub open spec fn reachable(self) -> bool {
        reachable(self.x as int) && reachable(self.y as int)
    }

    pub fn new(x: i64, y: i64, z: i64) -> (r: Vec3)
        ensures
            r.x == x,
            r.y == y,
            r.z == z,
    {
        Vec3 { x, y, z }
    }

    /// The first two components.
    pub fn truncate(self) -> (r: Vec2)
        ensures
            r == (Vec2 { x: self.x, y: self.y }),
    {
        Vec2 { x: self.x, y: self.y }
    }
}

/// Position (`translation`) and size (`scale`) of an entity; `z` orders drawing only.
#[derive(Clone, Copy, Debug, PartialEq, Eq, Structural)]
pub struct Transform {
    pub translation: Vec3,
    pub scale: Vec3,
}

/// An axis-aligned rectangle.
#[derive(Clone, Copy, Debug, PartialEq, Eq, Structural)]
pub struct Rect {
    pub min: Vec2,
    pub max: Vec2,
}

/// Lower edge of a box of extent `size` centred on `center`.
pub open spec fn lo(center: int, size: int) -> int {
    center - size / 2
}

/// Upper edge of a box of extent `size` centred on `center`: the box spans exactly
/// `size` (for an odd extent the centre leans half a unit toward the upper edge).
pub open spec fn hi(center: int, size: int) -> int {
    lo(center, size) + size
}

/// How the extent of an entity's bounding box is found.
#[derive(Clone, Copy, Debug, PartialEq, Eq, Structural)]
pub enum Aabb {
    /// A fixed extent, independent of the transform.
    StaticAabb { scale: Vec2 },
    /// The extent is the transform's current scale.
    TransformScaleAabb,
}

impl Aabb {
    pub open spec fn scale_of(self, t: Transform) -> Vec2 {
        match self {
            Aabb::StaticAabb { scale } => scale,
            Aabb::TransformScaleAabb => Vec2 { x: t.scale.x, y: t.scale.y },
        }
    }

    /// The box has a usable extent under `t`.
    pub open spec fn sized(self, t: Transform) -> bool {
        self.scale_of(t).is_size()
    }

    pub fn default() -> (r: Aabb)
        ensures
            r == Aabb::TransformScaleAabb,
    {
        Aabb::TransformScaleAabb
    }

    /// Extent (width, height) of the box under `transform`.
    pub fn get_scale(&self, transform: &Transform) -> (r: Vec2)
        ensures
            r == self.scale_of(*transform),
    {
        match self {
            Aabb::StaticAabb { scale } => *scale,
            Aabb::TransformScaleAabb => transform.scale.truncate(),
        }
    }

    /// The rectangle of the box's extent centred on the transform's translation.
    pub fn get_rect(&self, transform: &Transform) -> (r: Rect)
        requires
            self.sized(*transform),
            transform.translation.reachable(),
        ensures
            r.min.x == lo(transform.translation.x as int, self.scale_of(*transform).x as int),
            r.min.y == lo(transform.translation.y as int, self.scale_of(*transform).y as int),
            r.max.x == hi(transform.translation.x as int, self.scale_of(*transform).x as int),
            r.max.y == hi(transform.translation.y as int, self.scale_of(*transform).y as int),
    {
        let scale = self.get_scale(transform);
        let t = transform.translation;
        let min_x = t.x - scale.x / 2;
        let min_y = t.y - scale.y / 2;
        Rect { min: Vec2 { x: min_x, y: min_y }, max: Vec2 { x: min_x + scale.x, y: min_y + scale.y } }
    }
}

/// The side of `b` that `a` touches in an overlap.
#[derive(Clone, Copy, Debug, PartialEq, Eq, Structural)]
pub enum Collision {
    Left,
    Right,
    Top,
    Bottom,
    /// No clean edge on either axis.
    Inside,
}

/// The open intervals `(a_min, a_max)` and `(b_min, b_max)` intersect.
pub open spec fn spans_overlap(a_min: int, a_max: int, b_min: int, b_max: int) -> bool {
    a_min < b_max && a_max > b_min
}

/// `a` enters `b` across `b`'s low edge only.
pub open spec fn low_side(a_min: int, a_max: int, b_min: int, b_max: int) -> bool {
    a_min < b_min && a_max > b_min && a_max < b_max
}

/// `a` enters `b` across `b`'s high edge only.
pub open spec fn high_side(a_min: int, a_max: int, b_min: int, b_max: int) -> bool {
    a_min > b_min && a_min < b_max && a_max > b_max
}

/// Depth of the entry across the edge that `low_side` or `high_side` names.
pub open spec fn penetration(a_min: int, a_max: int, b_min: int, b_max: int) -> int {
    if low_side(a_min, a_max, b_min, b_max) {
        a_max - b_min
    } else {
        b_max - a_min
    }
}

/// Side detection for one axis: `Some(depth)` for a clean edge, `None` for no clean edge.
pub open spec fn axis_depth(a_min: int, a_max: int, b_min: int, b_max: int) -> Option<int> {
    if low_side(a_min, a_max, b_min, b_max) || high_side(a_min, a_max, b_min, b_max) {
        Some(penetration(a_min, a_max, b_min, b_max))
    } else {
        None
    }
}

/// Whether the vertical side wins over the horizontal one: a clean vertical edge wins
/// when there is no clean horizontal edge or when it is strictly shallower.
pub open spec fn vertical_wins(x_depth: Option<int>, y_depth: Option<int>) -> bool {
    match (x_depth, y_depth) {
        (_, None) => false,
        (None, Some(_)) => true,
        (Some(dx), Some(dy)) => dy < dx,
    }
}

/// The collision between box `a` (centre `ac`, extent `asz`) and box `b`, as the side
/// of `b` that `a` touches; `None` when they do not overlap on both axes.
pub open spec fn collision_of(ac: Vec3, asz: Vec2, bc: Vec3, bsz: Vec2) -> Option<Collision> {
    let a_min_x = lo(ac.x as int, asz.x as int);
    let a_max_x = hi(ac.x as int, asz.x as int);
    let a_min_y = lo(ac.y as int, asz.y as int);
    let a_max_y = hi(ac.y as int, asz.y as int);
    let b_min_x = lo(bc.x as int, bsz.x as int);
    let b_max_x = hi(bc.x as int, bsz.x as int);
    let b_min_y = lo(bc.y as int, bsz.y as int);
    let b_max_y = hi(bc.y as int, bsz.y as int);
    if !(spans_overlap(a_min_x, a_max_x, b_min_x, b_max_x) && spans_overlap(
        a_min_y,
        a_max_y,
        b_min_y,
        b_max_y,
    )) {
        None
    } else if vertical_wins(
        axis_depth(a_min_x, a_max_x, b_min_x, b_max_x),
        axis_depth(a_min_y, a_max_y, b_min_y, b_max_y),
    ) {
        if low_side(a_min_y, a_max_y, b_min_y, b_max_y) {
            Some(Collision::Bottom)
        } else {
            Some(Collision::Top)
        }
    } else if low_side(a_min_x, a_max_x, b_min_x, b_max_x) {
        Some(Collision::Left)
    } else if high_side(a_min_x, a_max_x, b_min_x, b_max_x) {
        Some(Collision::Right)
    } else {
        Some(Collision::Inside)
    }
}

/// Overlap test with side detection between box `a` and box `b`, each given by its
/// centre and extent. On a clean edge on both axes the shallower side is reported;
/// on equal depths the horizontal side.
pub fn collide(a_pos: Vec3, a_size: Vec2, b_pos: Vec3, b_size: Vec2) -> (r: Option<Collision>)
    requires
        a_pos.reachable(),
        b_pos.reachable(),
        a_size.is_size(),
        b_size.is_size(),
    ensures
        r == collision_of(a_pos, a_size, b_pos, b_size),
{
    let a_min_x = a_pos.x - a_size.x / 2;
    let a_max_x = a_min_x + a_size.x;
    let a_min_y = a_pos.y - a_size.y / 2;
    let a_max_y = a_min_y + a_size.y;
    let b_min_x = b_pos.x - b_size.x / 2;
    let b_max_x = b_min_x + b_size.x;
    let b_min_y = b_pos.y - b_size.y / 2;
    let b_max_y = b_min_y + b_size.y;
    if !(a_min_x < b_max_x && a_max_x > b_min_x && a_min_y < b_max_y && a_max_y > b_min_y) {
        return None;
    }
    let x_low = a_min_x < b_min_x && a_max_x > b_min_x && a_max_x < b_max_x;
    let x_high = a_min_x > b_min_x && a_min_x < b_max_x && a_max_x > b_max_x;
    let y_low = a_min_y < b_min_y && a_max_y > b_min_y && a_max_y < b_max_y;
    let y_high = a_min_y > b_min_y && a_min_y < b_max_y && a_max_y > b_max_y;
    let x_depth: Option<i64> = if x_low {
        Some(a_max_x - b_min_x)
    } else if x_high {
        Some(b_max_x - a_min_x)
    } else {
        None
    };
    let y_depth: Option<i64> = if y_low {
        Some(a_max_y - b_min_y)
    } else if y_high {
        Some(b_max_y - a_min_y)
    } else {
        None
    };
    let vertical = match (x_depth, y_depth) {
        (_, None) => false,
        (None, Some(_)) => true,
        (Some(dx), Some(dy)) => dy < dx,
    };
    if vertical {
        if y_low {
            Some(Collision::Bottom)
        } else {
            Some(Collision::Top)
        }
    } else if x_low {
        Some(Collision::Left)
    } else if x_high {
        Some(Collision::Right)
    } else {
        Some(Collision::Inside)
    }
}

} // verus!
