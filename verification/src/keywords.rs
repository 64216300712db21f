//! The words of the language.

use vstd::prelude::*;

verus! {

/// Starts a comment, which runs to the end of the line.
pub const COMMENT: &'static str = "//";

/// Lifts the pen.
pub const PENUP: &'static str = "PENUP";

/// Lowers the pen.
pub const PENDOWN: &'static str = "PENDOWN";

/// Moves the turtle along its heading.
pub const FORWARD: &'static str = "FORWARD";

/// Moves the turtle against its heading.
pub const BACK: &'static str = "BACK";

/// Moves the turtle to the left of its heading.
pub const LEFT: &'static str = "LEFT";

/// Moves the turtle to the right of its heading.
pub const RIGHT: &'static str = "RIGHT";

/// Puts the turtle at an x coordinate.
pub const SETX: &'static str = "SETX";

/// Puts the turtle at a y coordinate.
pub const SETY: &'static str = "SETY";

/// Turns the turtle by a number of degrees, as `TURN` does.
pub const SETHEADING: &'static str = "SETHEADING";

/// Turns the turtle by a number of degrees.
pub const TURN: &'static str = "TURN";

/// Picks a color of the palette.
pub const SETPENCOLOR: &'static str = "SETPENCOLOR";

/// Yields the x coordinate of the turtle.
pub const XCOR: &'static str = "XCOR";

/// Yields the y coordinate of the turtle.
pub const YCOR: &'static str = "YCOR";

/// Yields the heading of the turtle.
pub const HEADING: &'static str = "HEADING";

/// Yields the index of the turtle's color.
pub const COLOR: &'static str = "COLOR";

/// Binds a name to a value.
pub const MAKE: &'static str = "MAKE";

/// Adds an integer to a variable.
pub const ADDASSIGN: &'static str = "ADDASSIGN";

/// Starts a conditional.
pub const IF: &'static str = "IF";

/// Starts a loop.
pub const WHILE: &'static str = "WHILE";

/// Starts the definition of a procedure.
pub const TO: &'static str = "TO";

/// Ends the definition of a procedure.
pub const END: &'static str = "END";

/// Addition.
pub const PLUS: &'static str = "+";

/// Subtraction.
pub const MINUS: &'static str = "-";

/// Multiplication.
pub const TIMES: &'static str = "*";

/// Division, rounded toward zero.
pub const DIVIDE: &'static str = "/";

/// Equality.
pub const EQ: &'static str = "EQ";

/// Inequality.
pub const NE: &'static str = "NE";

/// Less than.
pub const LT: &'static str = "LT";

/// Greater than.
pub const GT: &'static str = "GT";

/// Kept for conjunction; in an expression it does nothing.
pub const AND: &'static str = "AND";

/// Kept for disjunction; in an expression it does nothing.
pub const OR: &'static str = "OR";

/// The boolean literal for truth.
pub const TRUE: &'static str = "TRUE";

/// The boolean literal for falsehood.
pub const FALSE: &'static str = "FALSE";

/// The instructions of the turtle in their long form, with the assignment
/// and the comment marker.
#[derive(Clone, Copy, Debug, PartialEq, Eq, Structural)]
pub enum LogoToken {
    PenUp,
    PenDown,
    Forward,
    Backward,
    Left,
    Right,
    Turn,
    Heading,
    SetX,
    SetY,
    Make,
    Comment,
}

impl LogoToken {
    /// How the token is written in a program.
    pub open spec fn spelling(self) -> Seq<char> {
        match self {
            LogoToken::PenUp => PENUP@,
            LogoToken::PenDown => PENDOWN@,
            LogoToken::Forward => FORWARD@,
            LogoToken::Backward => "BACKWARD"@,
            LogoToken::Left => LEFT@,
            LogoToken::Right => RIGHT@,
            LogoToken::Turn => TURN@,
            LogoToken::Heading => HEADING@,
            LogoToken::SetX => SETX@,
            LogoToken::SetY => SETY@,
            LogoToken::Make => MAKE@,
            LogoToken::Comment => COMMENT@,
        }
    }

    /// How the token is written in a program.
    pub fn as_str(&self) -> (word: &str)
        ensures
            word@ == self.spelling(),
    {
        match self {
            LogoToken::PenUp => PENUP,
            LogoToken::PenDown => PENDOWN,
            LogoToken::Forward => FORWARD,
            LogoToken::Backward => "BACKWARD",
            LogoToken::Left => LEFT,
            LogoToken::Right => RIGHT,
            LogoToken::Turn => TURN,
            LogoToken::Heading => HEADING,
            LogoToken::SetX => SETX,
            LogoToken::SetY => SETY,
            LogoToken::Make => MAKE,
            LogoToken::Comment => COMMENT,
        }
    }
}

/// How the words of the language are spelled.
pub proof fn spellings()
    ensures
        PENUP@ == seq!['P', 'E', 'N', 'U', 'P'],
        PENDOWN@ == seq!['P', 'E', 'N', 'D', 'O', 'W', 'N'],
        FORWARD@ == seq!['F', 'O', 'R', 'W', 'A', 'R', 'D'],
        BACK@ == seq!['B', 'A', 'C', 'K'],
        LEFT@ == seq!['L', 'E', 'F', 'T'],
        RIGHT@ == seq!['R', 'I', 'G', 'H', 'T'],
        SETX@ == seq!['S', 'E', 'T', 'X'],
        SETY@ == seq!['S', 'E', 'T', 'Y'],
        SETHEADING@ == seq!['S', 'E', 'T', 'H', 'E', 'A', 'D', 'I', 'N', 'G'],
        TURN@ == seq!['T', 'U', 'R', 'N'],
        SETPENCOLOR@ == seq![
            'S',
            'E',
            'T',
            'P',
            'E',
            'N',
            'C',
            'O',
            'L',
            'O',
            'R',
        ],
        XCOR@ == seq!['X', 'C', 'O', 'R'],
        YCOR@ == seq!['Y', 'C', 'O', 'R'],
        HEADING@ == seq!['H', 'E', 'A', 'D', 'I', 'N', 'G'],
        COLOR@ == seq!['C', 'O', 'L', 'O', 'R'],
        MAKE@ == seq!['M', 'A', 'K', 'E'],
        ADDASSIGN@ == seq!['A', 'D', 'D', 'A', 'S', 'S', 'I', 'G', 'N'],
        IF@ == seq!['I', 'F'],
        WHILE@ == seq!['W', 'H', 'I', 'L', 'E'],
        TO@ == seq!['T', 'O'],
        END@ == seq!['E', 'N', 'D'],
        COMMENT@ == seq!['/', '/'],
        PLUS@ == seq!['+'],
        MINUS@ == seq!['-'],
        TIMES@ == seq!['*'],
        DIVIDE@ == seq!['/'],
        EQ@ == seq!['E', 'Q'],
        NE@ == seq!['N', 'E'],
        LT@ == seq!['L', 'T'],
        GT@ == seq!['G', 'T'],
        TRUE@ == seq!['T', 'R', 'U', 'E'],
        FALSE@ == seq!['F', 'A', 'L', 'S', 'E'],
{
    reveal_strlit("PENUP");
    reveal_strlit("PENDOWN");
    reveal_strlit("FORWARD");
    reveal_strlit("BACK");
    reveal_strlit("LEFT");
    reveal_strlit("RIGHT");
    reveal_strlit("SETX");
    reveal_strlit("SETY");
    reveal_strlit("SETHEADING");
    reveal_strlit("TURN");
    reveal_strlit("SETPENCOLOR");
    reveal_strlit("XCOR");
    reveal_strlit("YCOR");
    reveal_strlit("HEADING");
    reveal_strlit("COLOR");
    reveal_strlit("MAKE");
    reveal_strlit("ADDASSIGN");
    reveal_strlit("IF");
    reveal_strlit("WHILE");
    reveal_strlit("TO");
    reveal_strlit("END");
    reveal_strlit("//");
    reveal_strlit("+");
    reveal_strlit("-");
    reveal_strlit("*");
    reveal_strlit("/");
    reveal_strlit("EQ");
    reveal_strlit("NE");
    reveal_strlit("LT");
    reveal_strlit("GT");
    reveal_strlit("TRUE");
    reveal_strlit("FALSE");
    assert(SETPENCOLOR@ =~= seq![
        'S',
        'E',
        'T',
        'P',
        'E',
        'N',
        'C',
        'O',
        'L',
        'O',
        'R',
    ]);
}

} // verus!
