use vstd::prelude::*;

verus! {

/// A movement intent: no movement, or one of the eight compass directions.
///
/// Directions follow the screen convention: `+x` points right and `+y` points down.
#[derive(Clone, Copy, Debug, PartialEq, Eq, Structural)]
pub enum Movement {
    Stop,
    Up,
    UpRight,
    Right,
    DownRight,
    Down,
    DownLeft,
    Left,
    UpLeft,
}

/// The unnormalized compass step of an intent, each component in `{-1, 0, 1}`.
pub open spec fn compass_of(m: Movement) -> (int, int) {
    match m {
        Movement::Stop => (0, 0),
        Movement::Up => (0, -1),
        Movement::UpRight => (1, -1),
        Movement::Right => (1, 0),
        Movement::DownRight => (1, 1),
        Movement::Down => (0, 1),
        Movement::DownLeft => (-1, 1),
        Movement::Left => (-1, 0),
        Movement::UpLeft => (-1, -1),
    }
}

/// An intent that points along a diagonal (both components nonzero).
pub open spec fn is_diagonal_spec(m: Movement) -> bool {
    m is UpRight || m is DownRight || m is DownLeft || m is UpLeft
}

/// A direction vector held exactly: it stands for `(x / sqrt(n), y / sqrt(n))`
/// where `n == norm_squared`, and for the zero vector when `n == 0`.
///
/// With `x` and `y` in `{-1, 0, 1}` every unit compass direction, diagonals
/// included, is represented without rounding.
#[derive(Clone, Copy, Debug, PartialEq, Eq, Structural)]
pub struct Direction {
    pub x: i8,
    pub y: i8,
    pub norm_squared: u8,
}

impl Direction {
    /// The direction is the zero vector.
    pub open spec fn is_zero(self) -> bool {
        self.norm_squared == 0
    }

    /// Components in `{-1, 0, 1}` and `norm_squared` the squared length of `(x, y)`.
    pub open spec fn wf(self) -> bool {
        &&& -1 <= self.x <= 1
        &&& -1 <= self.y <= 1
        &&& self.norm_squared as int == self.x * self.x + self.y * self.y
    }

    /// The squared length of the represented vector is one: `(x² + y²) / n == 1`.
    pub open spec fn is_unit(self) -> bool {
        self.norm_squared > 0 && self.x * self.x + self.y * self.y == self.norm_squared as int
    }
}

/// The exact direction of an intent: its compass step, normalized.
pub open spec fn direction_of(m: Movement) -> Direction {
    let (x, y) = compass_of(m);
    Direction { x: x as i8, y: y as i8, norm_squared: (x * x + y * y) as u8 }
}

impl Movement {
    /// The unnormalized compass step of this intent.
    pub fn compass(self) -> (r: (i8, i8))
        ensures
            r.0 as int == compass_of(self).0,
            r.1 as int == compass_of(self).1,
            -1 <= r.0 <= 1,
            -1 <= r.1 <= 1,
    {
        match self {
            Movement::Stop => (0, 0),
            Movement::Up => (0, -1),
            Movement::UpRight => (1, -1),
            Movement::Right => (1, 0),
            Movement::DownRight => (1, 1),
            Movement::Down => (0, 1),
            Movement::DownLeft => (-1, 1),
            Movement::Left => (-1, 0),
            Movement::UpLeft => (-1, -1),
        }
    }

    /// Whether this intent points along a diagonal.
    pub fn is_diagonal(self) -> (r: bool)
        ensures
            r == is_diagonal_spec(self),
    {
        match self {
            Movement::UpRight | Movement::DownRight | Movement::DownLeft | Movement::UpLeft => true,
            _ => false,
        }
    }

    /// The direction of this intent: the zero vector for `Stop`, otherwise the
    /// compass step scaled to unit length.
    pub fn direction(self) -> (r: Direction)
        ensures
            r == direction_of(self),
            r.wf(),
            r.is_zero() <==> self == Movement::Stop,
            self != Movement::Stop ==> r.is_unit(),
    {
        let (x, y) = self.compass();
        let norm_squared: u8 = (x * x + y * y) as u8;
        Direction { x, y, norm_squared }
    }
}

/// Every intent but `Stop` gives a direction of length one; `Stop` gives
/// exactly the zero vector.
pub proof fn lemma_direction_length(m: Movement)
    ensures
        m != Movement::Stop ==> direction_of(m).is_unit(),
        m == Movement::Stop ==> direction_of(m).x == 0 && direction_of(m).y == 0
            && direction_of(m).norm_squared == 0,
{
}

/// The axis intents need no normalization: their direction is the compass
/// step itself, with `norm_squared == 1`.
pub proof fn lemma_axis_directions_exact(m: Movement)
    requires
        m != Movement::Stop,
        !is_diagonal_spec(m),
    ensures
        direction_of(m).norm_squared == 1,
        direction_of(m).x as int == compass_of(m).0,
        direction_of(m).y as int == compass_of(m).1,
{
}

/// A diagonal direction has components of equal magnitude, each of square
/// one half (`x² / n == 1/2`, so each is `±1/√2`); for `UpRight` the two
/// components are opposite.
pub proof fn lemma_diagonal_components(m: Movement)
    requires
        is_diagonal_spec(m),
    ensures
        direction_of(m).x * direction_of(m).x == direction_of(m).y * direction_of(m).y,
        2 * direction_of(m).x * direction_of(m).x == direction_of(m).norm_squared,
        2 * direction_of(m).y * direction_of(m).y == direction_of(m).norm_squared,
        m == Movement::UpRight ==> direction_of(m).x == -direction_of(m).y,
{
    match m {
        Movement::UpRight => assert(direction_of(m) == Direction { x: 1, y: -1i8, norm_squared: 2 }),
        Movement::DownRight => assert(direction_of(m) == Direction { x: 1, y: 1, norm_squared: 2 }),
        Movement::DownLeft => assert(direction_of(m) == Direction { x: -1i8, y: 1, norm_squared: 2 }),
        Movement::UpLeft => assert(direction_of(m) == Direction { x: -1i8, y: -1i8, norm_squared: 2 }),
        _ => {},
    }
    let d = direction_of(m);
    assert(d.x * d.x == 1 && d.y * d.y == 1) by (nonlinear_arith)
        requires
            d.x == 1 || d.x == -1,
            d.y == 1 || d.y == -1,
    ;
}

} // verus!
