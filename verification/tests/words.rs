use rslogo::error::LogoError;
use rslogo::keywords::LogoToken;

#[test]
fn tokens_are_spelled_in_capitals() {
    assert_eq!(LogoToken::PenUp.as_str(), "PENUP");
    assert_eq!(LogoToken::PenDown.as_str(), "PENDOWN");
    assert_eq!(LogoToken::Forward.as_str(), "FORWARD");
    assert_eq!(LogoToken::Backward.as_str(), "BACKWARD");
    assert_eq!(LogoToken::Left.as_str(), "LEFT");
    assert_eq!(LogoToken::Right.as_str(), "RIGHT");
    assert_eq!(LogoToken::Turn.as_str(), "TURN");
    assert_eq!(LogoToken::Heading.as_str(), "HEADING");
    assert_eq!(LogoToken::SetX.as_str(), "SETX");
    assert_eq!(LogoToken::SetY.as_str(), "SETY");
    assert_eq!(LogoToken::Make.as_str(), "MAKE");
    assert_eq!(LogoToken::Comment.as_str(), "//");
}

#[test]
fn every_failure_has_its_cause_in_words() {
    let all = [
        (LogoError::UnterminatedStatement, "unterminated statement"),
        (LogoError::UnknownProcedure, "unknown procedure"),
        (LogoError::UnknownCommand, "unimplemented builtin function"),
        (LogoError::UndefinedVariable, "undefined variable"),
        (LogoError::VariableNotFound, "variable not found"),
        (LogoError::InvalidArgument, "invalid argument"),
        (LogoError::InvalidArgumentCount, "invalid number of arguments"),
        (LogoError::InvalidColor, "invalid color"),
        (LogoError::StackUnderflow, "invalid expression, stack underflow"),
        (LogoError::NotANumber, "invalid expression, operand is not a number"),
        (LogoError::TypeMismatch, "invalid expression, operand is not a boolean"),
        (LogoError::InvalidOperator, "invalid operator"),
        (LogoError::DivisionByZero, "division by zero"),
        (LogoError::Overflow, "arithmetic overflow"),
        (LogoError::InvalidCondition, "invalid conditional expression"),
        (LogoError::InvalidConditional, "invalid conditional statement"),
        (LogoError::InvalidProcedureDefinition, "invalid procedure definition"),
        (LogoError::InvalidAssignment, "invalid assignment"),
        (LogoError::NestingTooDeep, "nesting too deep"),
    ];
    for (error, cause) in all {
        assert_eq!(error.message(), cause);
    }
}
