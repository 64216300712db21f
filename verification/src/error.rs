//! The ways in which a program can fail.

use vstd::prelude::*;

verus! {

/// Why the run of a program stopped.
#[derive(Clone, Copy, Debug, PartialEq, Eq, Structural)]
pub enum LogoError {
    /// A statement's terminator is missing before the end of the text.
    UnterminatedStatement,
    /// A statement names a procedure that is not defined.
    UnknownProcedure,
    /// A word that is no command of the turtle was run as one.
    UnknownCommand,
    /// An expression refers to a variable that is bound nowhere.
    UndefinedVariable,
    /// An increment names a variable that has no value yet.
    VariableNotFound,
    /// A command got the wrong number of values, or one that is no integer.
    InvalidArgument,
    /// A procedure was called with the wrong number of arguments.
    InvalidArgumentCount,
    /// A color index is outside the palette.
    InvalidColor,
    /// An operator found fewer than two values on the stack.
    StackUnderflow,
    /// An operand of an arithmetic operator or of an increment is no integer.
    NotANumber,
    /// A comparison mixes a boolean with another kind of value.
    TypeMismatch,
    /// An ordering comparison was applied to booleans.
    InvalidOperator,
    /// A division by zero.
    DivisionByZero,
    /// A result or a position does not fit in 32 bits.
    Overflow,
    /// A condition did not yield exactly one boolean.
    InvalidCondition,
    /// A conditional or a loop has no opening bracket.
    InvalidConditional,
    /// A procedure definition lacks a name, a parameter or a body.
    InvalidProcedureDefinition,
    /// An assignment did not yield exactly a name and a value.
    InvalidAssignment,
    /// Blocks and procedure calls are nested too deeply.
    NestingTooDeep,
}

impl LogoError {
    /// The cause, in words.
    pub open spec fn cause(self) -> Seq<char> {
        match self {
            LogoError::UnterminatedStatement => "unterminated statement"@,
            LogoError::UnknownProcedure => "unknown procedure"@,
            LogoError::UnknownCommand => "unimplemented builtin function"@,
            LogoError::UndefinedVariable => "undefined variable"@,
            LogoError::VariableNotFound => "variable not found"@,
            LogoError::InvalidArgument => "invalid argument"@,
            LogoError::InvalidArgumentCount => "invalid number of arguments"@,
            LogoError::InvalidColor => "invalid color"@,
            LogoError::StackUnderflow => "invalid expression, stack underflow"@,
            LogoError::NotANumber => "invalid expression, operand is not a number"@,
            LogoError::TypeMismatch => "invalid expression, operand is not a boolean"@,
            LogoError::InvalidOperator => "invalid operator"@,
            LogoError::DivisionByZero => "division by zero"@,
            LogoError::Overflow => "arithmetic overflow"@,
            LogoError::InvalidCondition => "invalid conditional expression"@,
            LogoError::InvalidConditional => "invalid conditional statement"@,
            LogoError::InvalidProcedureDefinition => "invalid procedure definition"@,
            LogoError::InvalidAssignment => "invalid assignment"@,
            LogoError::NestingTooDeep => "nesting too deep"@,
        }
    }

    /// The cause, in words.
    pub fn message(&self) -> (out: &'static str)
        ensures
            out@ == self.cause(),
    {
        match self {
            LogoError::UnterminatedStatement => "unterminated statement",
            LogoError::UnknownProcedure => "unknown procedure",
            LogoError::UnknownCommand => "unimplemented builtin function",
            LogoError::UndefinedVariable => "undefined variable",
            LogoError::VariableNotFound => "variable not found",
            LogoError::InvalidArgument => "invalid argument",
            LogoError::InvalidArgumentCount => "invalid number of arguments",
            LogoError::InvalidColor => "invalid color",
            LogoError::StackUnderflow => "invalid expression, stack underflow",
            LogoError::NotANumber => "invalid expression, operand is not a number",
            LogoError::TypeMismatch => "invalid expression, operand is not a boolean",
            LogoError::InvalidOperator => "invalid operator",
            LogoError::DivisionByZero => "division by zero",
            LogoError::Overflow => "arithmetic overflow",
            LogoError::InvalidCondition => "invalid conditional expression",
            LogoError::InvalidConditional => "invalid conditional statement",
            LogoError::InvalidProcedureDefinition => "invalid procedure definition",
            LogoError::InvalidAssignment => "invalid assignment",
            LogoError::NestingTooDeep => "nesting too deep",
        }
    }
}

} // verus!
