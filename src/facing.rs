//! The eight compass directions and the two ways of classifying a vector.
//!
//! Screen coordinates are used throughout: `x` grows to the right and `y`
//! grows downwards, so `(0, -1)` points up.

use vstd::prelude::*;

verus! {

/// A vector with integer components, in screen coordinates.
#[derive(Clone, Copy, Debug, PartialEq, Eq, Structural)]
pub struct IVec2 {
    pub x: i32,
    pub y: i32,
}

impl IVec2 {
    pub fn new(x: i32, y: i32) -> (r: IVec2)
        ensures
            r.x == x,
            r.y == y,
    {
        IVec2 { x, y }
    }

    pub fn zero() -> (r: IVec2)
        ensures
            r.x == 0,
            r.y == 0,
    {
        IVec2 { x: 0, y: 0 }
    }

    pub open spec fn is_zero_spec(&self) -> bool {
        self.x == 0 && self.y == 0
    }

    pub fn is_zero(&self) -> (r: bool)
        ensures
            r == self.is_zero_spec(),
    {
        self.x == 0 && self.y == 0
    }
}

/// One of eight compass directions.
#[derive(Clone, Copy, Debug, PartialEq, Eq, Structural)]
pub enum Facing8 {
    Up,
    Left,
    Right,
    Down,
    UpLeft,
    UpRight,
    DownLeft,
    DownRight,
}

impl Default for Facing8 {
    fn default() -> (r: Facing8)
        ensures
            r == Facing8::Down,
    {
        Facing8::Down
    }
}

/// The unit step of a direction: each component is -1, 0 or 1.
pub open spec fn offset(f: Facing8) -> (int, int) {
    match f {
        Facing8::Up => (0, -1),
        Facing8::Down => (0, 1),
        Facing8::Left => (-1, 0),
        Facing8::Right => (1, 0),
        Facing8::UpLeft => (-1, -1),
        Facing8::UpRight => (1, -1),
        Facing8::DownLeft => (-1, 1),
        Facing8::DownRight => (1, 1),
    }
}

/// The axis-snapping classification of a vector.
pub open spec fn snapped_facing(x: int, y: int) -> Facing8 {
    if x == 0 && y == -1 {
        Facing8::Up
    } else if x == 0 && y == 1 {
        Facing8::Down
    } else if x == 1 && y == 0 {
        Facing8::Right
    } else if x == -1 && y == 0 {
        Facing8::Left
    } else if x > 0 && y > 0 {
        Facing8::DownRight
    } else if x < 0 && y > 0 {
        Facing8::DownLeft
    } else if x < 0 && y < 0 {
        Facing8::UpLeft
    } else if x > 0 && y < 0 {
        Facing8::UpRight
    } else {
        Facing8::Down
    }
}

pub open spec fn abs(a: int) -> int {
    if a < 0 { -a } else { a }
}

/// `a < b * tan(22.5°)` for `a >= 0, b >= 0`, written without the
/// irrational tangent: `tan(22.5°) = sqrt(2) - 1`, so the test is
/// `a + b < sqrt(2) * b`, that is `(a + b)^2 < 2 * b^2`.
pub open spec fn below_half_sector(a: int, b: int) -> bool {
    (a + b) * (a + b) < 2 * (b * b)
}

/// The direction of the 45-degree sector that holds the angle of `(x, y)`.
///
/// The sectors are centred on the eight compass directions. A vector lies
/// in a horizontal sector when its slope is below `tan(22.5°)`, in a
/// vertical one when its inverse slope is, and in a diagonal one
/// otherwise; the quadrant's signs pick among them. The zero vector has
/// angle 0 and is `Right`.
pub open spec fn sector_of(x: int, y: int) -> Facing8 {
    if below_half_sector(abs(y), abs(x)) {
        if x > 0 { Facing8::Right } else { Facing8::Left }
    } else if below_half_sector(abs(x), abs(y)) {
        if y > 0 { Facing8::Down } else { Facing8::Up }
    } else if x == 0 && y == 0 {
        Facing8::Right
    } else if x > 0 {
        if y > 0 { Facing8::DownRight } else { Facing8::UpRight }
    } else {
        if y > 0 { Facing8::DownLeft } else { Facing8::UpLeft }
    }
}

/// Position of a direction on the compass, counted clockwise on screen from
/// `Right` in steps of 45 degrees (the order in which the angle grows).
pub open spec fn compass_index(f: Facing8) -> int {
    match f {
        Facing8::Right => 0,
        Facing8::DownRight => 1,
        Facing8::Down => 2,
        Facing8::DownLeft => 3,
        Facing8::Left => 4,
        Facing8::UpLeft => 5,
        Facing8::Up => 6,
        Facing8::UpRight => 7,
    }
}

/// The direction `steps` eighths of a turn clockwise from `f`.
pub open spec fn turned(f: Facing8, steps: int) -> Facing8 {
    let i = (compass_index(f) + steps) % 8;
    if i == 0 {
        Facing8::Right
    } else if i == 1 {
        Facing8::DownRight
    } else if i == 2 {
        Facing8::Down
    } else if i == 3 {
        Facing8::DownLeft
    } else if i == 4 {
        Facing8::Left
    } else if i == 5 {
        Facing8::UpLeft
    } else if i == 6 {
        Facing8::Up
    } else {
        Facing8::UpRight
    }
}

/// The mirror image of a direction across the down-right diagonal, the
/// image of swapping a vector's two components.
pub open spec fn mirrored(f: Facing8) -> Facing8 {
    match f {
        Facing8::Right => Facing8::Down,
        Facing8::Down => Facing8::Right,
        Facing8::Left => Facing8::Up,
        Facing8::Up => Facing8::Left,
        Facing8::UpRight => Facing8::DownLeft,
        Facing8::DownLeft => Facing8::UpRight,
        Facing8::UpLeft => Facing8::UpLeft,
        Facing8::DownRight => Facing8::DownRight,
    }
}

/// The angle between `(x, y)` and `(dx, dy)` is at most 22.5 degrees.
///
/// With `cos(22.5°)^2 = (2 + sqrt(2)) / 4`, the test `cos^2 >= cos(22.5°)^2`
/// for a positive dot product reads `4 dot^2 - 2 n >= sqrt(2) n`, where
/// `n` is the product of the squared lengths; both sides are squared once
/// more to leave only integers.
pub open spec fn within_half_sector(x: int, y: int, dx: int, dy: int) -> bool {
    let dot = x * dx + y * dy;
    let n = (x * x + y * y) * (dx * dx + dy * dy);
    let c = 4 * (dot * dot) - 2 * n;
    dot > 0 && c >= 0 && c * c >= 2 * (n * n)
}

/// Classifying a direction's own unit step by its components gives that
/// direction back; the zero vector is `Down`; a vector that is no unit step
/// is classified by the signs of its components.
pub proof fn lemma_snapped_facing(x: int, y: int)
    ensures
        forall|f: Facing8| offset(f) == (x, y) ==> snapped_facing(x, y) == f,
        x == 0 && y == 0 ==> snapped_facing(x, y) == Facing8::Down,
        x > 0 && y > 0 ==> snapped_facing(x, y) == Facing8::DownRight,
        x < 0 && y > 0 ==> snapped_facing(x, y) == Facing8::DownLeft,
        x < 0 && y < 0 ==> snapped_facing(x, y) == Facing8::UpLeft,
        x > 0 && y < 0 ==> snapped_facing(x, y) == Facing8::UpRight,
        x == 0 && y != 1 && y != -1 ==> snapped_facing(x, y) == Facing8::Down,
        y == 0 && x != 1 && x != -1 ==> snapped_facing(x, y) == Facing8::Down,
{
}

/// Every direction's unit step lies in that direction's own sector.
pub proof fn lemma_sector_holds_own_step(f: Facing8)
    ensures
        sector_of(offset(f).0, offset(f).1) == f,
{
    assert(below_half_sector(0, 1));
    assert(!below_half_sector(1, 0));
    assert(!below_half_sector(1, 1));
}

/// Scaling a vector by a positive factor keeps its sector: the
/// classification depends on the angle alone.
pub proof fn lemma_sector_scale_invariant(x: int, y: int, k: int)
    requires
        k > 0,
    ensures
        sector_of(k * x, k * y) == sector_of(x, y),
{
    lemma_abs_scaled(x, k);
    lemma_abs_scaled(y, k);
    lemma_below_scaled(abs(y), abs(x), k);
    lemma_below_scaled(abs(x), abs(y), k);
    assert(k * x > 0 <==> x > 0) by (nonlinear_arith)
        requires
            k > 0,
    ;
    assert(k * y > 0 <==> y > 0) by (nonlinear_arith)
        requires
            k > 0,
    ;
    assert(k * x == 0 <==> x == 0) by (nonlinear_arith)
        requires
            k > 0,
    ;
    assert(k * y == 0 <==> y == 0) by (nonlinear_arith)
        requires
            k > 0,
    ;
}

proof fn lemma_abs_scaled(a: int, k: int)
    requires
        k > 0,
    ensures
        abs(k * a) == k * abs(a),
{
    if a < 0 {
        assert(k * a < 0 && k * (-a) == -(k * a)) by (nonlinear_arith)
            requires
                k > 0,
                a < 0,
        ;
    } else {
        assert(k * a >= 0) by (nonlinear_arith)
            requires
                k > 0,
                a >= 0,
        ;
    }
}

proof fn lemma_below_scaled(a: int, b: int, k: int)
    requires
        k > 0,
    ensures
        below_half_sector(k * a, k * b) == below_half_sector(a, b),
{
    assert((k * a + k * b) * (k * a + k * b) == (k * k) * ((a + b) * (a + b))) by (nonlinear_arith);
    assert((k * b) * (k * b) == (k * k) * (b * b)) by (nonlinear_arith);
    let kk = k * k;
    assert(kk > 0) by (nonlinear_arith)
        requires
            k > 0,
            kk == k * k,
    ;
    let p = (a + b) * (a + b);
    let bb = b * b;
    assert(kk * p < 2 * (kk * bb) <==> p < 2 * bb) by (nonlinear_arith)
        requires
            kk > 0,
    ;
}

/// A vector on an axis is near that axis and not near the other one.
proof fn lemma_below_on_axis(a: int)
    requires
        a >= 0,
    ensures
        !below_half_sector(a, 0),
        a > 0 ==> below_half_sector(0, a),
{
    assert(!((a + 0) * (a + 0) < 2 * (0 * 0))) by (nonlinear_arith);
    assert(a > 0 ==> (0 + a) * (0 + a) < 2 * (a * a)) by (nonlinear_arith);
}

/// At most one of the two "near an axis" tests holds.
proof fn lemma_below_exclusive(a: int, b: int)
    requires
        a >= 0,
        b >= 0,
    ensures
        !(below_half_sector(a, b) && below_half_sector(b, a)),
{
    assert(!((a + b) * (a + b) < 2 * (b * b) && (a + b) * (a + b) < 2 * (a * a)))
        by (nonlinear_arith)
        requires
            a >= 0,
            b >= 0,
    ;
}

/// A quarter turn of the vector, `(x, y)` to `(-y, x)`, turns its sector by
/// two eighths clockwise.
pub proof fn lemma_sector_quarter_turn(x: int, y: int)
    requires
        x != 0 || y != 0,
    ensures
        sector_of(-y, x) == turned(sector_of(x, y), 2),
{
    lemma_below_exclusive(abs(x), abs(y));
    assert(turned(Facing8::Right, 2) == Facing8::Down);
    assert(turned(Facing8::DownRight, 2) == Facing8::DownLeft);
    assert(turned(Facing8::Down, 2) == Facing8::Left);
    assert(turned(Facing8::DownLeft, 2) == Facing8::UpLeft);
    assert(turned(Facing8::Left, 2) == Facing8::Up);
    assert(turned(Facing8::UpLeft, 2) == Facing8::UpRight);
    assert(turned(Facing8::Up, 2) == Facing8::Right);
    assert(turned(Facing8::UpRight, 2) == Facing8::DownRight);
    assert(abs(-y) == abs(y));
    lemma_below_on_axis(abs(x));
    lemma_below_on_axis(abs(y));
}

/// Swapping the components mirrors the sector across the down-right
/// diagonal.
pub proof fn lemma_sector_mirror(x: int, y: int)
    requires
        x != 0 || y != 0,
    ensures
        sector_of(y, x) == mirrored(sector_of(x, y)),
{
    lemma_below_exclusive(abs(x), abs(y));
    lemma_below_on_axis(abs(x));
    lemma_below_on_axis(abs(y));
}

/// Flipping the sign of one axis in both vectors keeps their angle.
proof fn lemma_within_abs(x: int, y: int, dx: int, dy: int)
    requires
        x * dx >= 0,
        y * dy >= 0,
    ensures
        within_half_sector(x, y, dx, dy) == within_half_sector(abs(x), abs(y), abs(dx), abs(dy)),
{
    assert(x < 0 ==> dx <= 0) by (nonlinear_arith)
        requires
            x * dx >= 0,
    ;
    assert(dx < 0 ==> x <= 0) by (nonlinear_arith)
        requires
            x * dx >= 0,
    ;
    assert(y < 0 ==> dy <= 0) by (nonlinear_arith)
        requires
            y * dy >= 0,
    ;
    assert(dy < 0 ==> y <= 0) by (nonlinear_arith)
        requires
            y * dy >= 0,
    ;
    let ax = abs(x);
    let ay = abs(y);
    let adx = abs(dx);
    let ady = abs(dy);
    assert(ax * adx == x * dx && ax * ax == x * x && adx * adx == dx * dx) by (nonlinear_arith)
        requires
            ax == abs(x),
            adx == abs(dx),
            x < 0 ==> dx <= 0,
            dx < 0 ==> x <= 0,
    ;
    assert(ay * ady == y * dy && ay * ay == y * y && ady * ady == dy * dy) by (nonlinear_arith)
        requires
            ay == abs(y),
            ady == abs(dy),
            y < 0 ==> dy <= 0,
            dy < 0 ==> y <= 0,
    ;
}

/// A vector near the horizontal axis, `(b, a)` with `a < b * tan(22.5°)`,
/// is within 22.5 degrees of `Right`.
proof fn lemma_within_horizontal(a: int, b: int)
    requires
        a >= 0,
        b > 0,
        below_half_sector(a, b),
    ensures
        within_half_sector(b, a, 1, 0),
{
    let n = b * b + a * a;
    let c = 4 * (b * b) - 2 * n;
    assert(b * b - 2 * (a * b) - a * a > 0) by (nonlinear_arith)
        requires
            (a + b) * (a + b) < 2 * (b * b),
    ;
    assert(b * b + 2 * (a * b) - a * a > 0) by (nonlinear_arith)
        requires
            b * b - 2 * (a * b) - a * a > 0,
            a >= 0,
            b > 0,
    ;
    assert(c >= 0 && c * c >= 2 * (n * n)) by (nonlinear_arith)
        requires
            n == b * b + a * a,
            c == 4 * (b * b) - 2 * n,
            b * b - 2 * (a * b) - a * a > 0,
            b * b + 2 * (a * b) - a * a > 0,
    ;
    assert(b * 1 + a * 0 == b);
    assert((b * b + a * a) * (1 * 1 + 0 * 0) == n) by (nonlinear_arith)
        requires
            n == b * b + a * a,
    ;
}

/// A vector near the vertical axis is within 22.5 degrees of `Down`.
proof fn lemma_within_vertical(a: int, b: int)
    requires
        a >= 0,
        b > 0,
        below_half_sector(a, b),
    ensures
        within_half_sector(a, b, 0, 1),
{
    lemma_within_horizontal(a, b);
}

/// A vector near neither axis, in the first quadrant, is within 22.5
/// degrees of `DownRight`.
proof fn lemma_within_diagonal(a: int, b: int)
    requires
        a > 0,
        b > 0,
        !below_half_sector(a, b),
        !below_half_sector(b, a),
    ensures
        within_half_sector(a, b, 1, 1),
{
    let n = (a * a + b * b) * 2;
    let dot = a + b;
    let c = 4 * (dot * dot) - 2 * n;
    assert(a * a + 2 * (a * b) - b * b >= 0) by (nonlinear_arith)
        requires
            (a + b) * (a + b) >= 2 * (b * b),
    ;
    assert(a * a - 2 * (a * b) - b * b <= 0) by (nonlinear_arith)
        requires
            (b + a) * (b + a) >= 2 * (a * a),
    ;
    assert(c == 8 * (a * b)) by (nonlinear_arith)
        requires
            n == (a * a + b * b) * 2,
            dot == a + b,
            c == 4 * (dot * dot) - 2 * n,
    ;
    assert(a * b > 0) by (nonlinear_arith)
        requires
            a > 0,
            b > 0,
    ;
    assert(c * c >= 2 * (n * n)) by (nonlinear_arith)
        requires
            n == (a * a + b * b) * 2,
            c == 8 * (a * b),
            a * a + 2 * (a * b) - b * b >= 0,
            a * a - 2 * (a * b) - b * b <= 0,
    ;
}

/// Every vector but the zero vector is within 22.5 degrees of the
/// direction of its sector: the classification picks the nearest of the
/// eight compass directions.
pub proof fn lemma_sector_is_nearest(x: int, y: int)
    requires
        x != 0 || y != 0,
    ensures
        within_half_sector(x, y, offset(sector_of(x, y)).0, offset(sector_of(x, y)).1),
{
    lemma_below_on_axis(abs(x));
    lemma_below_on_axis(abs(y));
    let f = sector_of(x, y);
    let dx = offset(f).0;
    let dy = offset(f).1;
    assert(x * dx >= 0 && y * dy >= 0) by (nonlinear_arith)
        requires
            dx == 0 || (dx > 0 && x >= 0) || (dx < 0 && x <= 0),
            dy == 0 || (dy > 0 && y >= 0) || (dy < 0 && y <= 0),
    ;
    lemma_within_abs(x, y, dx, dy);
    if below_half_sector(abs(y), abs(x)) {
        lemma_within_horizontal(abs(y), abs(x));
    } else if below_half_sector(abs(x), abs(y)) {
        lemma_within_vertical(abs(x), abs(y));
    } else {
        lemma_within_diagonal(abs(x), abs(y));
    }
}

/// No square is twice another positive square: `sqrt(2)` is irrational.
proof fn lemma_no_square_doubles(c: int, b: int)
    requires
        b > 0,
        c >= 0,
    ensures
        c * c != 2 * (b * b),
    decreases b,
{
    if c * c == 2 * (b * b) {
        if c % 2 == 1 {
            let q = c / 2;
            assert(c * c == 2 * (2 * (q * q) + 2 * q) + 1) by (nonlinear_arith)
                requires
                    c == 2 * q + 1,
            ;
        }
        let k = c / 2;
        assert(c == 2 * k);
        assert(b * b == 2 * (k * k)) by (nonlinear_arith)
            requires
                c == 2 * k,
                c * c == 2 * (b * b),
        ;
        assert(k > 0) by (nonlinear_arith)
            requires
                b > 0,
                b * b == 2 * (k * k),
                k >= 0,
        ;
        assert(k < b) by (nonlinear_arith)
            requires
                b > 0,
                k > 0,
                b * b == 2 * (k * k),
        ;
        lemma_no_square_doubles(b, k);
    }
}

/// A vector within 22.5 degrees of `Right`, in the first quadrant, is near
/// the horizontal axis. No vector with integer components lies exactly on
/// the boundary.
proof fn lemma_horizontal_from_within(a: int, b: int)
    requires
        a >= 0,
        b >= 0,
        within_half_sector(b, a, 1, 0),
    ensures
        below_half_sector(a, b),
{
    let n = b * b + a * a;
    let c = 4 * (b * b) - 2 * n;
    assert(b * 1 + a * 0 == b);
    assert((b * b + a * a) * (1 * 1 + 0 * 0) == n) by (nonlinear_arith)
        requires
            n == b * b + a * a,
    ;
    assert(b > 0);
    assert(c * c - 2 * (n * n) == 2 * ((b * b - 2 * (a * b) - a * a) * (b * b + 2 * (a * b) - a
        * a))) by (nonlinear_arith)
        requires
            n == b * b + a * a,
            c == 4 * (b * b) - 2 * n,
    ;
    assert(b >= a) by (nonlinear_arith)
        requires
            a >= 0,
            b > 0,
            b * b >= a * a,
    ;
    assert(b * b + 2 * (a * b) - a * a > 0) by (nonlinear_arith)
        requires
            a >= 0,
            b > 0,
            b >= a,
    ;
    assert(b * b - 2 * (a * b) - a * a >= 0) by (nonlinear_arith)
        requires
            (b * b - 2 * (a * b) - a * a) * (b * b + 2 * (a * b) - a * a) >= 0,
            b * b + 2 * (a * b) - a * a > 0,
    ;
    lemma_no_square_doubles(a + b, b);
    assert((a + b) * (a + b) == 2 * (b * b) - (b * b - 2 * (a * b) - a * a)) by (nonlinear_arith);
}

/// A vector within 22.5 degrees of `Down`, in the first quadrant, is near
/// the vertical axis.
proof fn lemma_vertical_from_within(a: int, b: int)
    requires
        a >= 0,
        b >= 0,
        within_half_sector(a, b, 0, 1),
    ensures
        below_half_sector(a, b),
{
    assert(a * 0 + b * 1 == b * 1 + a * 0);
    assert((a * a + b * b) * (0 * 0 + 1 * 1) == (b * b + a * a) * (1 * 1 + 0 * 0)) by (nonlinear_arith);
    lemma_horizontal_from_within(a, b);
}

/// A vector within 22.5 degrees of `DownRight`, in the first quadrant, has
/// both components positive and is near neither axis.
proof fn lemma_diagonal_from_within(a: int, b: int)
    requires
        a >= 0,
        b >= 0,
        within_half_sector(a, b, 1, 1),
    ensures
        a > 0,
        b > 0,
        !below_half_sector(a, b),
        !below_half_sector(b, a),
{
    let n = (a * a + b * b) * 2;
    let dot = a + b;
    let c = 4 * (dot * dot) - 2 * n;
    assert(a * 1 + b * 1 == dot);
    assert((a * a + b * b) * (1 * 1 + 1 * 1) == n) by (nonlinear_arith)
        requires
            n == (a * a + b * b) * 2,
    ;
    assert(c == 8 * (a * b)) by (nonlinear_arith)
        requires
            n == (a * a + b * b) * 2,
            dot == a + b,
            c == 4 * (dot * dot) - 2 * n,
    ;
    let f1 = a * a - 2 * (a * b) - b * b;
    let f2 = a * a + 2 * (a * b) - b * b;
    assert(f1 * f2 <= 0) by (nonlinear_arith)
        requires
            n == (a * a + b * b) * 2,
            c == 8 * (a * b),
            c * c >= 2 * (n * n),
            f1 == a * a - 2 * (a * b) - b * b,
            f2 == a * a + 2 * (a * b) - b * b,
    ;
    assert(a > 0 && b > 0) by (nonlinear_arith)
        requires
            a >= 0,
            b >= 0,
            a + b > 0,
            f1 * f2 <= 0,
            f1 == a * a - 2 * (a * b) - b * b,
            f2 == a * a + 2 * (a * b) - b * b,
    ;
    assert(f1 <= 0 && f2 >= 0) by (nonlinear_arith)
        requires
            a > 0,
            b > 0,
            f1 * f2 <= 0,
            f1 == a * a - 2 * (a * b) - b * b,
            f2 == a * a + 2 * (a * b) - b * b,
    ;
    assert((a + b) * (a + b) == 2 * (b * b) + f2) by (nonlinear_arith)
        requires
            f2 == a * a + 2 * (a * b) - b * b,
    ;
    assert((b + a) * (b + a) == 2 * (a * a) - f1) by (nonlinear_arith)
        requires
            f1 == a * a - 2 * (a * b) - b * b,
    ;
}

/// Against a diagonal direction, a vector within 22.5 degrees has each
/// component of the direction's sign (or zero).
proof fn lemma_diagonal_signs(x: int, y: int, dx: int, dy: int)
    requires
        dx * dx == 1,
        dy * dy == 1,
        within_half_sector(x, y, dx, dy),
    ensures
        x * dx >= 0,
        y * dy >= 0,
{
    let p = x * dx;
    let q = y * dy;
    let dot = p + q;
    let n = (x * x + y * y) * (dx * dx + dy * dy);
    let c = 4 * (dot * dot) - 2 * n;
    assert(p * p == x * x && q * q == y * y) by (nonlinear_arith)
        requires
            p == x * dx,
            q == y * dy,
            dx * dx == 1,
            dy * dy == 1,
    ;
    assert(c == 8 * (p * q)) by (nonlinear_arith)
        requires
            dot == p + q,
            n == (x * x + y * y) * (dx * dx + dy * dy),
            c == 4 * (dot * dot) - 2 * n,
            p * p == x * x,
            q * q == y * y,
            dx * dx == 1,
            dy * dy == 1,
    ;
    assert(p >= 0 && q >= 0) by (nonlinear_arith)
        requires
            p + q > 0,
            8 * (p * q) >= 0,
    ;
}

/// The sectors do not overlap on vectors with integer components: a vector
/// within 22.5 degrees of a direction lies in that direction's sector.
/// With `lemma_sector_is_nearest`, every vector but the zero vector is
/// within 22.5 degrees of exactly one compass direction, the one its sector
/// names.
pub proof fn lemma_sector_is_unique(x: int, y: int, f: Facing8)
    requires
        within_half_sector(x, y, offset(f).0, offset(f).1),
    ensures
        sector_of(x, y) == f,
{
    let dx = offset(f).0;
    let dy = offset(f).1;
    lemma_below_on_axis(abs(x));
    lemma_below_on_axis(abs(y));
    lemma_below_exclusive(abs(x), abs(y));
    if dx == 0 || dy == 0 {
        assert(x * dx + y * dy > 0);
        assert(x * dx >= 0 && y * dy >= 0) by (nonlinear_arith)
            requires
                dx == 0 || dy == 0,
                x * dx + y * dy > 0,
        ;
        lemma_within_abs(x, y, dx, dy);
        if dy == 0 {
            assert(abs(dx) == 1 && abs(dy) == 0);
            lemma_horizontal_from_within(abs(y), abs(x));
            assert(x * dx > 0);
            assert(dx > 0 ==> x > 0) by (nonlinear_arith)
                requires
                    x * dx > 0,
            ;
            assert(dx < 0 ==> x < 0) by (nonlinear_arith)
                requires
                    x * dx > 0,
            ;
        } else {
            assert(abs(dx) == 0 && abs(dy) == 1);
            lemma_vertical_from_within(abs(x), abs(y));
            assert(y * dy > 0);
            assert(dy > 0 ==> y > 0) by (nonlinear_arith)
                requires
                    y * dy > 0,
            ;
            assert(dy < 0 ==> y < 0) by (nonlinear_arith)
                requires
                    y * dy > 0,
            ;
        }
    } else {
        assert(dx * dx == 1 && dy * dy == 1);
        lemma_diagonal_signs(x, y, dx, dy);
        lemma_within_abs(x, y, dx, dy);
        assert(abs(dx) == 1 && abs(dy) == 1);
        lemma_diagonal_from_within(abs(x), abs(y));
        assert(dx > 0 ==> x > 0 && dx < 0 ==> x < 0) by (nonlinear_arith)
            requires
                x * dx >= 0,
                x != 0,
                dx * dx == 1,
        ;
        assert(dy > 0 ==> y > 0 && dy < 0 ==> y < 0) by (nonlinear_arith)
            requires
                y * dy >= 0,
                y != 0,
                dy * dy == 1,
        ;
    }
}

/// The name of a direction as the debug display shows it.
pub open spec fn facing_name(f: Facing8) -> Seq<char> {
    match f {
        Facing8::Up => "Up"@,
        Facing8::Left => "Left"@,
        Facing8::Right => "Right"@,
        Facing8::Down => "Down"@,
        Facing8::UpLeft => "UpLeft"@,
        Facing8::UpRight => "UpRight"@,
        Facing8::DownLeft => "DownLeft"@,
        Facing8::DownRight => "DownRight"@,
    }
}

/// The presentation angle of a direction, in degrees clockwise from up.
pub open spec fn rotation_degrees(f: Facing8) -> int {
    match f {
        Facing8::Up => 0,
        Facing8::Right => 90,
        Facing8::Down => 180,
        Facing8::Left => 270,
        Facing8::UpRight => 45,
        Facing8::DownRight => 135,
        Facing8::DownLeft => 225,
        Facing8::UpLeft => -45,
    }
}

impl Facing8 {
    /// Classifies a vector whose components are already snapped to the axes
    /// (a sum of pressed direction keys, say) by the exact pattern of its
    /// components, then by the signs of its components; anything else,
    /// the zero vector included, is `Down`.
    pub fn from_vector(vector: IVec2) -> (r: Facing8)
        ensures
            r == snapped_facing(vector.x as int, vector.y as int),
    {
        let x = vector.x;
        let y = vector.y;
        if x == 0 && y == -1 {
            Facing8::Up
        } else if x == 0 && y == 1 {
            Facing8::Down
        } else if x == 1 && y == 0 {
            Facing8::Right
        } else if x == -1 && y == 0 {
            Facing8::Left
        } else if x > 0 && y > 0 {
            Facing8::DownRight
        } else if x < 0 && y > 0 {
            Facing8::DownLeft
        } else if x < 0 && y < 0 {
            Facing8::UpLeft
        } else if x > 0 && y < 0 {
            Facing8::UpRight
        } else {
            Facing8::default()
        }
    }

    /// Classifies a vector of any length (an aim vector towards the cursor,
    /// say) by its angle: the circle is cut into eight 45-degree sectors,
    /// each centred on one compass direction.
    pub fn from_any_vector(vector: IVec2) -> (r: Facing8)
        ensures
            r == sector_of(vector.x as int, vector.y as int),
    {
        let x = vector.x as i64;
        let y = vector.y as i64;
        let ax: u128 = if x < 0 { (-x) as u128 } else { x as u128 };
        let ay: u128 = if y < 0 { (-y) as u128 } else { y as u128 };
        assert(ax <= 0x8000_0000 && ay <= 0x8000_0000);
        let s: u128 = ax + ay;
        assert(s * s <= 0x4_0000_0000_0000_0000) by (nonlinear_arith)
            requires s <= 0x1_0000_0000;
        assert(ax * ax <= 0x4000_0000_0000_0000) by (nonlinear_arith)
            requires ax <= 0x8000_0000;
        assert(ay * ay <= 0x4000_0000_0000_0000) by (nonlinear_arith)
            requires ay <= 0x8000_0000;
        let square = s * s;
        if square < 2 * (ax * ax) {
            if x > 0 { Facing8::Right } else { Facing8::Left }
        } else if square < 2 * (ay * ay) {
            if y > 0 { Facing8::Down } else { Facing8::Up }
        } else if x == 0 && y == 0 {
            Facing8::Right
        } else if x > 0 {
            if y > 0 { Facing8::DownRight } else { Facing8::UpRight }
        } else {
            if y > 0 { Facing8::DownLeft } else { Facing8::UpLeft }
        }
    }

    pub fn name(&self) -> (r: &'static str)
        ensures
            r@ == facing_name(*self),
    {
        match self {
            Facing8::Up => "Up",
            Facing8::Left => "Left",
            Facing8::Right => "Right",
            Facing8::Down => "Down",
            Facing8::UpLeft => "UpLeft",
            Facing8::UpRight => "UpRight",
            Facing8::DownLeft => "DownLeft",
            Facing8::DownRight => "DownRight",
        }
    }

    /// The sprite rotation that shows this direction, in degrees.
    pub fn to_rotation(&self) -> (r: i32)
        ensures
            r as int == rotation_degrees(*self),
    {
        match self {
            Facing8::Up => 0,
            Facing8::Down => 180,
            Facing8::Left => 270,
            Facing8::Right => 90,
            Facing8::UpLeft => -45,
            Facing8::UpRight => 45,
            Facing8::DownRight => 135,
            Facing8::DownLeft => 225,
        }
    }
}

} // verus!
