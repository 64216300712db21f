//! The turtle: a pen with a position, a heading, a color and a record of the
//! lines it has drawn.
//!
//! Positions are whole numbers, x growing to the right and y growing down the
//! surface. The heading is a whole number of degrees from 0 to 359: heading 0
//! points up the surface, and headings grow counter-clockwise, so that 90
//! points to the left, 180 down and 270 to the right. A move is computed in
//! integers, from sines in millionths, and rounded to the nearest whole
//! number, halves away from zero: a move and the same move at the opposite
//! angle cancel exactly.

use crate::error::LogoError;
use vstd::prelude::*;

verus! {

/// The number of colors in the palette.
pub const PALETTE_SIZE: i32 = 16;

/// The color that a new turtle draws in.
pub const DEFAULT_COLOR: i32 = 7;

/// The number of degrees in a full turn.
pub const FULL_TURN: i32 = 360;

/// What a move forward adds to the heading.
pub const AHEAD: i32 = 0;

/// What a move backward adds to the heading.
pub const BEHIND: i32 = 180;

/// What a move to the left adds to the heading.
pub const LEFTWARD: i32 = 90;

/// What a move to the right adds to the heading.
pub const RIGHTWARD: i32 = 270;

/// The sines of 0 to 90 degrees, in millionths.
pub const SINES: [i32; 91] = [
    0, 17452, 34899, 52336, 69756, 87156, 104528, 121869, 139173, 156434, 173648, 190809,
    207912, 224951, 241922, 258819, 275637, 292372, 309017, 325568, 342020, 358368, 374607,
    390731, 406737, 422618, 438371, 453990, 469472, 484810, 500000, 515038, 529919, 544639,
    559193, 573576, 587785, 601815, 615661, 629320, 642788, 656059, 669131, 681998, 694658,
    707107, 719340, 731354, 743145, 754710, 766044, 777146, 788011, 798636, 809017, 819152,
    829038, 838671, 848048, 857167, 866025, 874620, 882948, 891007, 898794, 906308, 913545,
    920505, 927184, 933580, 939693, 945519, 951057, 956305, 961262, 965926, 970296, 974370,
    978148, 981627, 984808, 987688, 990268, 992546, 994522, 996195, 997564, 998630, 999391,
    999848, 1000000,
];

/// A straight line on the drawing surface, in one color of the palette.
#[derive(Clone, Copy, Debug, PartialEq, Eq, Structural)]
pub struct Segment {
    pub x1: i32,
    pub y1: i32,
    pub x2: i32,
    pub y2: i32,
    pub color: i32,
}

/// The state of a turtle, as the contracts speak of it.
pub ghost struct Turtle {
    pub width: int,
    pub height: int,
    pub x: int,
    pub y: int,
    pub heading: int,
    pub pen_down: bool,
    pub color: int,
    pub lines: Seq<Segment>,
}

/// The sine of a whole number of degrees below 180, in millionths.
#[verifier::opaque]
pub open spec fn half_sine(d: int) -> int {
    if d <= 90 {
        SINES[d] as int
    } else {
        SINES[180 - d] as int
    }
}

/// The sine of a whole number of degrees, in millionths.
pub open spec fn sine(degrees: int) -> int {
    let d = degrees % 360;
    if d < 180 {
        half_sine(d)
    } else {
        -half_sine(d - 180)
    }
}

/// The cosine of a whole number of degrees, in millionths.
pub open spec fn cosine(degrees: int) -> int {
    sine(degrees + 90)
}

/// A number of millionths as the nearest whole number, halves away from zero.
pub open spec fn rounded(millionths: int) -> int {
    if millionths >= 0 {
        (millionths + 500_000) / 1_000_000
    } else {
        -((-millionths + 500_000) / 1_000_000)
    }
}

/// How far a move of `distance` in the direction `heading` goes along the x
/// axis. Heading 0 points up the surface, to smaller y, and headings grow
/// counter-clockwise: heading 90 points to smaller x.
pub open spec fn step_x(heading: int, distance: int) -> int {
    -rounded(distance * sine(heading))
}

/// How far a move of `distance` in the direction `heading` goes along the y
/// axis.
pub open spec fn step_y(heading: int, distance: int) -> int {
    -rounded(distance * cosine(heading))
}

/// Whether a coordinate fits in 32 bits.
pub open spec fn in_range(v: int) -> bool {
    i32::MIN <= v <= i32::MAX
}

impl Turtle {
    /// A turtle at the centre of a surface, pen up, heading 0, with the
    /// default color and nothing drawn.
    pub open spec fn start(width: int, height: int) -> Turtle {
        Turtle {
            width,
            height,
            x: width / 2,
            y: height / 2,
            heading: 0,
            pen_down: false,
            color: DEFAULT_COLOR as int,
            lines: Seq::empty(),
        }
    }

    /// The x coordinate that a move of `distance` at `offset` degrees from the
    /// heading leads to.
    pub open spec fn target_x(self, offset: int, distance: int) -> int {
        self.x + step_x((self.heading + offset) % (FULL_TURN as int), distance)
    }

    /// The y coordinate that a move of `distance` at `offset` degrees from the
    /// heading leads to.
    pub open spec fn target_y(self, offset: int, distance: int) -> int {
        self.y + step_y((self.heading + offset) % (FULL_TURN as int), distance)
    }

    /// The line from the turtle's position to a point, in its color.
    pub open spec fn line_to(self, x: int, y: int) -> Segment {
        Segment {
            x1: self.x as i32,
            y1: self.y as i32,
            x2: x as i32,
            y2: y as i32,
            color: self.color as i32,
        }
    }

    /// The turtle after a move of `distance` at `offset` degrees from its
    /// heading: at the target, with the line to it drawn if the pen is down.
    /// A target outside the 32-bit range is an error.
    pub open spec fn travel(self, offset: int, distance: int) -> Result<Turtle, LogoError> {
        let x = self.target_x(offset, distance);
        let y = self.target_y(offset, distance);
        if in_range(x) && in_range(y) {
            Ok(
                Turtle {
                    x,
                    y,
                    lines: if self.pen_down {
                        self.lines.push(self.line_to(x, y))
                    } else {
                        self.lines
                    },
                    ..self
                },
            )
        } else {
            Err(LogoError::Overflow)
        }
    }

    /// The turtle put at a point, with nothing drawn.
    pub open spec fn teleport(self, x: int, y: int) -> Turtle {
        Turtle { x, y, ..self }
    }

    /// The turtle turned by `delta` degrees.
    pub open spec fn turned(self, delta: int) -> Turtle {
        Turtle { heading: (self.heading + delta) % (FULL_TURN as int), ..self }
    }

    /// The turtle with its pen down or up.
    pub open spec fn with_pen(self, down: bool) -> Turtle {
        Turtle { pen_down: down, ..self }
    }

    /// The turtle with another color, if the palette has it.
    pub open spec fn with_color(self, index: int) -> Result<Turtle, LogoError> {
        if 0 <= index < PALETTE_SIZE {
            Ok(Turtle { color: index, ..self })
        } else {
            Err(LogoError::InvalidColor)
        }
    }
}

/// The turtle and the surface it draws on.
pub struct LogoRunner {
    width: u32,
    height: u32,
    x: i32,
    y: i32,
    direction: i32,
    pen_down: bool,
    color: i32,
    lines: Vec<Segment>,
}

impl View for LogoRunner {
    type V = Turtle;

    closed spec fn view(&self) -> Turtle {
        Turtle {
            width: self.width as int,
            height: self.height as int,
            x: self.x as int,
            y: self.y as int,
            heading: self.direction as int,
            pen_down: self.pen_down,
            color: self.color as int,
            lines: self.lines@,
        }
    }
}

/// The sine of a heading, in millionths.
fn sine_of(heading: i32) -> (s: i64)
    requires
        0 <= heading < 360,
    ensures
        s == sine(heading as int),
        -0x8000_0000 <= s <= 0x8000_0000,
{
    if heading < 180 {
        half_sine_of(heading) as i64
    } else {
        -(half_sine_of(heading - 180) as i64)
    }
}

/// The sine of a heading below 180, in millionths.
fn half_sine_of(d: i32) -> (s: i32)
    requires
        0 <= d < 180,
    ensures
        s == half_sine(d as int),
{
    reveal(half_sine);
    if d <= 90 {
        SINES[d as usize]
    } else {
        SINES[(180 - d) as usize]
    }
}

/// Rounds a number of millionths to the nearest whole number.
fn round_millionths(v: i64) -> (r: i64)
    requires
        -0x4000_0000_0000_0000 <= v <= 0x4000_0000_0000_0000,
    ensures
        r == rounded(v as int),
{
    if v >= 0 {
        (v + 500_000) / 1_000_000
    } else {
        -((-v + 500_000) / 1_000_000)
    }
}

/// The heading that is `b` degrees from the heading `a`: the remainder of
/// their sum on division by a full turn, from 0 to 359.
fn add_degrees(a: i32, b: i32) -> (r: i32)
    ensures
        r == (a + b) % (FULL_TURN as int),
        0 <= r < FULL_TURN,
{
    let sum: i64 = a as i64 + b as i64;
    let rem: i64 = sum % (FULL_TURN as i64);
    if rem < 0 {
        (rem + FULL_TURN as i64) as i32
    } else {
        rem as i32
    }
}

impl LogoRunner {
    #[verifier::type_invariant]
    spec fn well_formed(self) -> bool {
        &&& 0 <= self.direction < FULL_TURN
        &&& 0 <= self.color < PALETTE_SIZE
    }

    /// A turtle at the centre of a surface of the given size, pen up.
    pub fn new(width: u32, height: u32) -> (runner: LogoRunner)
        ensures
            runner@ == Turtle::start(width as int, height as int),
    {
        LogoRunner {
            width,
            height,
            x: (width / 2) as i32,
            y: (height / 2) as i32,
            direction: 0,
            pen_down: false,
            color: DEFAULT_COLOR,
            lines: Vec::new(),
        }
    }

    /// Lifts the pen: moves leave no line.
    pub fn pen_up(&mut self)
        ensures
            final(self)@ == old(self)@.with_pen(false),
    {
        proof {
            use_type_invariant(&*self);
        }
        self.pen_down = false;
    }

    /// Lowers the pen: moves draw a line.
    pub fn pen_down(&mut self)
        ensures
            final(self)@ == old(self)@.with_pen(true),
    {
        proof {
            use_type_invariant(&*self);
        }
        self.pen_down = true;
    }

    /// Moves by `distance` at `offset` degrees from the heading.
    fn travel(&mut self, offset: i32, distance: i32) -> (result: Result<(), LogoError>)
        ensures
            match old(self)@.travel(offset as int, distance as int) {
                Ok(turtle) => result == Ok::<(), LogoError>(()) && final(self)@ == turtle,
                Err(e) => result == Err::<(), LogoError>(e) && final(self)@ == old(self)@,
            },
    {
        proof {
            use_type_invariant(&*self);
        }
        let heading: i32 = add_degrees(self.direction, offset);
        let across: i32 = add_degrees(heading, 90);
        let s: i64 = sine_of(heading);
        let c: i64 = sine_of(across);
        let d: i64 = distance as i64;
        assert(-0x4000_0000_0000_0000 <= d * s <= 0x4000_0000_0000_0000) by (nonlinear_arith)
            requires
                -0x8000_0000 <= s <= 0x8000_0000,
                -0x8000_0000 <= d <= 0x8000_0000,
        ;
        assert(-0x4000_0000_0000_0000 <= d * c <= 0x4000_0000_0000_0000) by (nonlinear_arith)
            requires
                -0x8000_0000 <= c <= 0x8000_0000,
                -0x8000_0000 <= d <= 0x8000_0000,
        ;
        let dx: i64 = -round_millionths(d * s);
        let dy: i64 = -round_millionths(d * c);
        let x: i64 = self.x as i64 + dx;
        let y: i64 = self.y as i64 + dy;
        if x < -0x8000_0000 || x > 0x7fff_ffff || y < -0x8000_0000 || y > 0x7fff_ffff {
            return Err(LogoError::Overflow);
        }
        if self.pen_down {
            let line = Segment {
                x1: self.x,
                y1: self.y,
                x2: x as i32,
                y2: y as i32,
                color: self.color,
            };
            let mut lines: Vec<Segment> = Vec::new();
            std::mem::swap(&mut lines, &mut self.lines);
            lines.push(line);
            std::mem::swap(&mut lines, &mut self.lines);
        }
        self.x = x as i32;
        self.y = y as i32;
        Ok(())
    }

    /// Moves `distance` along the heading.
    pub fn draw_forward(&mut self, distance: i32) -> (result: Result<(), LogoError>)
        ensures
            match old(self)@.travel(AHEAD as int, distance as int) {
                Ok(turtle) => result == Ok::<(), LogoError>(()) && final(self)@ == turtle,
                Err(e) => result == Err::<(), LogoError>(e) && final(self)@ == old(self)@,
            },
    {
        self.travel(AHEAD, distance)
    }

    /// Moves `distance` against the heading.
    pub fn draw_backward(&mut self, distance: i32) -> (result: Result<(), LogoError>)
        ensures
            match old(self)@.travel(BEHIND as int, distance as int) {
                Ok(turtle) => result == Ok::<(), LogoError>(()) && final(self)@ == turtle,
                Err(e) => result == Err::<(), LogoError>(e) && final(self)@ == old(self)@,
            },
    {
        self.travel(BEHIND, distance)
    }

    /// Moves `distance` to the left of the heading.
    pub fn draw_left(&mut self, distance: i32) -> (result: Result<(), LogoError>)
        ensures
            match old(self)@.travel(LEFTWARD as int, distance as int) {
                Ok(turtle) => result == Ok::<(), LogoError>(()) && final(self)@ == turtle,
                Err(e) => result == Err::<(), LogoError>(e) && final(self)@ == old(self)@,
            },
    {
        self.travel(LEFTWARD, distance)
    }

    /// Moves `distance` to the right of the heading.
    pub fn draw_right(&mut self, distance: i32) -> (result: Result<(), LogoError>)
        ensures
            match old(self)@.travel(RIGHTWARD as int, distance as int) {
                Ok(turtle) => result == Ok::<(), LogoError>(()) && final(self)@ == turtle,
                Err(e) => result == Err::<(), LogoError>(e) && final(self)@ == old(self)@,
            },
    {
        self.travel(RIGHTWARD, distance)
    }

    /// Puts the turtle at a point; nothing is drawn, whatever the pen.
    pub fn set_pos(&mut self, x: i32, y: i32)
        ensures
            final(self)@ == old(self)@.teleport(x as int, y as int),
    {
        proof {
            use_type_invariant(&*self);
        }
        self.x = x;
        self.y = y;
    }

    /// Turns the turtle by `delta` degrees; the heading stays from 0 to 359.
    pub fn turn_degree(&mut self, delta: i32)
        ensures
            final(self)@ == old(self)@.turned(delta as int),
            0 <= final(self)@.heading < 360,
    {
        proof {
            use_type_invariant(&*self);
        }
        self.direction = add_degrees(self.direction, delta);
    }

    /// Picks a color of the palette, by its index from 0 to 15.
    pub fn set_color(&mut self, index: i32) -> (result: Result<(), LogoError>)
        ensures
            match old(self)@.with_color(index as int) {
                Ok(turtle) => result == Ok::<(), LogoError>(()) && final(self)@ == turtle,
                Err(e) => result == Err::<(), LogoError>(e) && final(self)@ == old(self)@,
            },
    {
        proof {
            use_type_invariant(&*self);
        }
        if index < 0 || index >= PALETTE_SIZE {
            return Err(LogoError::InvalidColor);
        }
        self.color = index;
        Ok(())
    }

    /// The x coordinate of the turtle.
    pub fn get_pos_x(&self) -> (x: i32)
        ensures
            x == self@.x,
    {
        self.x
    }

    /// The y coordinate of the turtle.
    pub fn get_pos_y(&self) -> (y: i32)
        ensures
            y == self@.y,
    {
        self.y
    }

    /// The heading in degrees, from 0 to 359.
    pub fn get_direction(&self) -> (heading: i32)
        ensures
            heading == self@.heading,
            0 <= heading < 360,
    {
        proof {
            use_type_invariant(self);
        }
        self.direction
    }

    /// The index of the color in the palette, from 0 to 15.
    pub fn get_color_index(&self) -> (index: i32)
        ensures
            index == self@.color,
            0 <= index < 16,
    {
        proof {
            use_type_invariant(self);
        }
        self.color
    }

    /// Whether the pen is down.
    pub fn is_pen_down(&self) -> (down: bool)
        ensures
            down == self@.pen_down,
    {
        self.pen_down
    }

    /// The width of the surface.
    pub fn get_width(&self) -> (width: u32)
        ensures
            width == self@.width,
    {
        self.width
    }

    /// The height of the surface.
    pub fn get_height(&self) -> (height: u32)
        ensures
            height == self@.height,
    {
        self.height
    }

    /// The lines drawn so far, oldest first.
    pub fn get_lines(&self) -> (lines: &Vec<Segment>)
        ensures
            lines@ == self@.lines,
    {
        &self.lines
    }
}

} // verus!
