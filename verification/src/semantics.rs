//! What a program means: the result of every expression and statement, as
//! functions on the state of an evaluator and of the turtle.

use crate::error::LogoError;
use crate::keywords::{
    ADDASSIGN, BACK, COLOR, COMMENT, DIVIDE, END, EQ, FALSE, FORWARD, GT, HEADING, IF, LEFT, LT,
    MAKE, MINUS, NE, PENDOWN, PENUP, PLUS, RIGHT, SETHEADING, SETPENCOLOR, SETX, SETY, TIMES, TO,
    TRUE, TURN, WHILE, XCOR, YCOR,
};
use crate::logo_runner::{in_range, Turtle, AHEAD, BEHIND, LEFTWARD, RIGHTWARD};
use crate::text::{int_text, parse_int, separator, whitespace, words};
use vstd::prelude::*;

verus! {

/// The most times that the body of one loop is run.
pub const MAX_ITERATIONS: usize = 1000;

/// The most evaluators that may be nested in one another, for blocks and
/// procedure calls together.
pub const MAX_DEPTH: usize = 100;

/// A procedure: the names of its parameters and the text of its body.
pub ghost struct Procedure {
    pub source_code: Seq<char>,
    pub args: Seq<Seq<char>>,
}

/// The state of an evaluator: its text and its place in it, the arguments of
/// the call it runs for, how many more evaluators may be nested in it, and
/// the variables and procedures that it shares with all the others.
pub ghost struct Evaluator {
    pub source: Seq<char>,
    pub cursor: int,
    pub args: Map<Seq<char>, Seq<char>>,
    pub depth: nat,
    pub vars: Map<Seq<char>, Seq<char>>,
    pub procs: Map<Seq<char>, Procedure>,
}

/// What a statement or a program leaves behind: the evaluator, the turtle,
/// and whether it failed.
pub ghost struct Outcome {
    pub evaluator: Evaluator,
    pub turtle: Turtle,
    pub result: Result<(), LogoError>,
}

/// What ends the body of a statement.
#[derive(Clone, Copy, Debug, PartialEq, Eq, Structural)]
pub enum Terminator {
    /// The next newline.
    Newline,
    /// The next `END`.
    End,
    /// The closing bracket that matches the first opening one.
    Bracket,
}

// ---------------------------------------------------------------------------
// Statements in the text
// ---------------------------------------------------------------------------
/// The index at which the token that starts at `i` ends: that of the next
/// space or newline, or the length of the text.
pub open spec fn token_end(text: Seq<char>, i: int) -> int
    decreases text.len() - i,
{
    if 0 <= i < text.len() && !separator(text[i]) {
        token_end(text, i + 1)
    } else {
        i
    }
}

/// Whether a text holds nothing but whitespace.
pub open spec fn blank(s: Seq<char>) -> bool {
    forall|i: int| 0 <= i < s.len() ==> whitespace(#[trigger] s[i])
}

/// Whether a token names a command of the turtle.
pub open spec fn builtin(token: Seq<char>) -> bool {
    ||| token == PENUP@
    ||| token == PENDOWN@
    ||| token == FORWARD@
    ||| token == BACK@
    ||| token == LEFT@
    ||| token == RIGHT@
    ||| token == SETX@
    ||| token == SETY@
    ||| token == SETPENCOLOR@
    ||| token == TURN@
    ||| token == SETHEADING@
}

/// What ends the body of the statement that a token starts.
pub open spec fn terminator_of(token: Seq<char>) -> Terminator {
    if token == TO@ {
        Terminator::End
    } else if token == IF@ || token == WHILE@ {
        Terminator::Bracket
    } else {
        Terminator::Newline
    }
}

/// The index after the first `c` at or after `from`.
pub open spec fn after_char(text: Seq<char>, c: char, from: int) -> Option<int>
    decreases text.len() - from,
{
    if 0 <= from < text.len() {
        if text[from] == c {
            Some(from + 1)
        } else {
            after_char(text, c, from + 1)
        }
    } else {
        None
    }
}

/// The index after the first `END` that starts at or after `from`.
pub open spec fn after_end(text: Seq<char>, from: int) -> Option<int>
    decreases text.len() - from,
{
    if 0 <= from && from + 3 <= text.len() {
        if text.subrange(from, from + 3) == END@ {
            Some(from + 3)
        } else {
            after_end(text, from + 1)
        }
    } else {
        None
    }
}

/// The index after the closing bracket that brings the count of open
/// brackets, `open` at index `from`, back to zero. A closing bracket met
/// while none is open ends the search too.
pub open spec fn after_bracket(text: Seq<char>, from: int, open: nat) -> Option<int>
    decreases text.len() - from,
{
    if 0 <= from < text.len() {
        if text[from] == '[' {
            after_bracket(text, from + 1, open + 1)
        } else if text[from] == ']' {
            if open <= 1 {
                Some(from + 1)
            } else {
                after_bracket(text, from + 1, (open - 1) as nat)
            }
        } else {
            after_bracket(text, from + 1, open)
        }
    } else {
        None
    }
}

/// The index at which the body that starts at `from` ends, its terminator
/// included, or `None` where the terminator is missing.
pub open spec fn body_end(text: Seq<char>, from: int, terminator: Terminator) -> Option<int> {
    match terminator {
        Terminator::Newline => after_char(text, '\n', from),
        Terminator::End => after_end(text, from),
        Terminator::Bracket => after_bracket(text, from, 0),
    }
}

// ---------------------------------------------------------------------------
// Expressions
// ---------------------------------------------------------------------------
/// Whether a token is one of the four arithmetic operators.
pub open spec fn arithmetic(token: Seq<char>) -> bool {
    token == PLUS@ || token == MINUS@ || token == TIMES@ || token == DIVIDE@
}

/// Whether a token is one of the four relational operators.
pub open spec fn relational(token: Seq<char>) -> bool {
    token == EQ@ || token == NE@ || token == LT@ || token == GT@
}

/// Whether a value is one of the two boolean literals.
pub open spec fn boolean(value: Seq<char>) -> bool {
    value == TRUE@ || value == FALSE@
}

/// The boolean literal for a truth value.
pub open spec fn truth(b: bool) -> Seq<char> {
    if b {
        TRUE@
    } else {
        FALSE@
    }
}

/// The quotient of two integers, rounded toward zero.
pub open spec fn quotient(a: int, b: int) -> int {
    let q = (if a < 0 {
        -a
    } else {
        a
    }) / (if b < 0 {
        -b
    } else {
        b
    });
    if (a < 0) != (b < 0) {
        -q
    } else {
        q
    }
}

/// An integer that fits in 32 bits, or an overflow.
pub open spec fn checked(r: int) -> Result<int, LogoError> {
    if in_range(r) {
        Ok(r)
    } else {
        Err(LogoError::Overflow)
    }
}

/// What an arithmetic operator makes of its left and right operands.
pub open spec fn compute(op: Seq<char>, a: int, b: int) -> Result<int, LogoError> {
    if op == PLUS@ {
        checked(a + b)
    } else if op == MINUS@ {
        checked(a - b)
    } else if op == TIMES@ {
        checked(a * b)
    } else if b == 0 {
        Err(LogoError::DivisionByZero)
    } else {
        checked(quotient(a, b))
    }
}

/// What a relational operator makes of its left and right operands. Two
/// booleans can be tested for equality only; two integers can be compared in
/// all four ways; nothing else can be compared.
pub open spec fn compare(op: Seq<char>, left: Seq<char>, right: Seq<char>) -> Result<
    bool,
    LogoError,
> {
    if boolean(left) || boolean(right) {
        if !boolean(left) || !boolean(right) {
            Err(LogoError::TypeMismatch)
        } else if op == EQ@ {
            Ok(left == right)
        } else if op == NE@ {
            Ok(left != right)
        } else {
            Err(LogoError::InvalidOperator)
        }
    } else {
        match (parse_int(left), parse_int(right)) {
            (Some(a), Some(b)) => {
                if op == EQ@ {
                    Ok(a == b)
                } else if op == NE@ {
                    Ok(a != b)
                } else if op == LT@ {
                    Ok(a < b)
                } else if op == GT@ {
                    Ok(a > b)
                } else {
                    Err(LogoError::InvalidOperator)
                }
            },
            _ => Err(LogoError::NotANumber),
        }
    }
}

/// A token with a reference to a variable turned into the literal of its
/// name; any other token as it is.
pub open spec fn as_literal(token: Seq<char>) -> Seq<char> {
    if token.len() > 0 && token[0] == ':' {
        seq!['"'] + token.skip(1)
    } else {
        token
    }
}

/// The tokens with each reference to a variable turned into the literal of
/// its name.
pub open spec fn as_literals(tokens: Seq<Seq<char>>) -> Seq<Seq<char>> {
    Seq::new(tokens.len(), |i: int| as_literal(tokens[i]))
}

/// The arguments of a call: each of the first `n` parameters bound to the
/// value at its place, a later binding of a name taking the place of an
/// earlier one.
pub open spec fn bind(params: Seq<Seq<char>>, values: Seq<Seq<char>>, n: nat) -> Map<
    Seq<char>,
    Seq<char>,
>
    decreases n,
{
    if n == 0 {
        Map::empty()
    } else {
        bind(params, values, (n - 1) as nat).insert(params[n - 1], values[n - 1])
    }
}

impl Evaluator {
    /// What one token makes of the stack of values, whose top is at index 0.
    /// An operator takes its left operand from the top and its right operand
    /// from below it; a literal, a variable and a query of the turtle put one
    /// value on top; any other word leaves the stack as it is.
    pub open spec fn apply(self, turtle: Turtle, token: Seq<char>, stack: Seq<Seq<char>>) -> Result<
        Seq<Seq<char>>,
        LogoError,
    > {
        if arithmetic(token) {
            if stack.len() < 2 {
                Err(LogoError::StackUnderflow)
            } else {
                match (parse_int(stack[0]), parse_int(stack[1])) {
                    (Some(a), Some(b)) => match compute(token, a, b) {
                        Ok(r) => Ok(seq![int_text(r)] + stack.skip(2)),
                        Err(e) => Err(e),
                    },
                    _ => Err(LogoError::NotANumber),
                }
            }
        } else if relational(token) {
            if stack.len() < 2 {
                Err(LogoError::StackUnderflow)
            } else {
                match compare(token, stack[0], stack[1]) {
                    Ok(b) => Ok(seq![truth(b)] + stack.skip(2)),
                    Err(e) => Err(e),
                }
            }
        } else if token.len() > 0 && token[0] == '"' {
            Ok(seq![token.skip(1)] + stack)
        } else if token.len() > 0 && token[0] == ':' {
            let name = token.skip(1);
            if self.args.contains_key(name) {
                Ok(seq![self.args[name]] + stack)
            } else if self.vars.contains_key(name) {
                Ok(seq![self.vars[name]] + stack)
            } else {
                Err(LogoError::UndefinedVariable)
            }
        } else if token == XCOR@ {
            Ok(seq![int_text(turtle.x)] + stack)
        } else if token == YCOR@ {
            Ok(seq![int_text(turtle.y)] + stack)
        } else if token == HEADING@ {
            Ok(seq![int_text(turtle.heading)] + stack)
        } else if token == COLOR@ {
            Ok(seq![int_text(turtle.color)] + stack)
        } else {
            Ok(stack)
        }
    }

    /// The values of a sequence of tokens in prefix notation, in the order in
    /// which they are written: the first token applied to the values of the
    /// tokens after it.
    pub open spec fn eval_tokens(self, turtle: Turtle, tokens: Seq<Seq<char>>) -> Result<
        Seq<Seq<char>>,
        LogoError,
    >
        decreases tokens.len(),
    {
        if tokens.len() == 0 {
            Ok(Seq::empty())
        } else {
            match self.eval_tokens(turtle, tokens.drop_first()) {
                Ok(stack) => self.apply(turtle, tokens[0], stack),
                Err(e) => Err(e),
            }
        }
    }

    /// The values of an expression.
    pub open spec fn evaluate(self, turtle: Turtle, expr: Seq<char>) -> Result<
        Seq<Seq<char>>,
        LogoError,
    > {
        self.eval_tokens(turtle, words(expr))
    }

    /// The truth value of a condition: its one value, which is a boolean.
    pub open spec fn condition(self, turtle: Turtle, expr: Seq<char>) -> Result<bool, LogoError> {
        match self.evaluate(turtle, expr) {
            Ok(values) => if values.len() == 1 && boolean(values[0]) {
                Ok(values[0] == TRUE@)
            } else {
                Err(LogoError::InvalidCondition)
            },
            Err(e) => Err(e),
        }
    }

    // -----------------------------------------------------------------------
    // Statements
    // -----------------------------------------------------------------------
    /// The evaluator and the turtle as they are, without a failure.
    pub open spec fn done(self, turtle: Turtle) -> Outcome {
        Outcome { evaluator: self, turtle, result: Ok(()) }
    }

    /// The evaluator and the turtle as they are, with a failure.
    pub open spec fn fail(self, turtle: Turtle, error: LogoError) -> Outcome {
        Outcome { evaluator: self, turtle, result: Err(error) }
    }

    /// What a command does to the turtle, given its integer argument.
    #[verifier::opaque]
    pub open spec fn act(token: Seq<char>, v: int, turtle: Turtle) -> Result<Turtle, LogoError> {
        if token == FORWARD@ {
            turtle.travel(AHEAD as int, v)
        } else if token == BACK@ {
            turtle.travel(BEHIND as int, v)
        } else if token == LEFT@ {
            turtle.travel(LEFTWARD as int, v)
        } else if token == RIGHT@ {
            turtle.travel(RIGHTWARD as int, v)
        } else if token == SETX@ {
            Ok(turtle.teleport(v, turtle.y))
        } else if token == SETY@ {
            Ok(turtle.teleport(turtle.x, v))
        } else if token == SETPENCOLOR@ {
            turtle.with_color(v)
        } else {
            Ok(turtle.turned(v))
        }
    }

    /// A command of the turtle. The pen commands take no value; every other
    /// command takes one, an integer. A word that is no command fails.
    pub open spec fn command(self, turtle: Turtle, token: Seq<char>, expr: Seq<char>) -> Outcome {
        match self.evaluate(turtle, expr) {
            Err(e) => self.fail(turtle, e),
            Ok(values) => if token == PENUP@ || token == PENDOWN@ {
                if values.len() != 0 {
                    self.fail(turtle, LogoError::InvalidArgument)
                } else {
                    self.done(turtle.with_pen(token == PENDOWN@))
                }
            } else if !builtin(token) {
                self.fail(turtle, LogoError::UnknownCommand)
            } else if values.len() != 1 {
                self.fail(turtle, LogoError::InvalidArgument)
            } else {
                match parse_int(values[0]) {
                    None => self.fail(turtle, LogoError::InvalidArgument),
                    Some(v) => match Evaluator::act(token, v, turtle) {
                        Ok(moved) => self.done(moved),
                        Err(e) => self.fail(turtle, e),
                    },
                }
            },
        }
    }

    /// An assignment: the expression yields a name and a value, and the name
    /// is bound to the value, whether it had one or not.
    pub open spec fn assign(self, turtle: Turtle, expr: Seq<char>) -> Outcome {
        match self.evaluate(turtle, expr) {
            Err(e) => self.fail(turtle, e),
            Ok(values) => if values.len() != 2 {
                self.fail(turtle, LogoError::InvalidAssignment)
            } else {
                Evaluator { vars: self.vars.insert(values[0], values[1]), ..self }.done(turtle)
            },
        }
    }

    /// An increment: the expression yields a name and an integer, and the
    /// variable of that name, which has an integer value, gets their sum.
    pub open spec fn increment(self, turtle: Turtle, expr: Seq<char>) -> Outcome {
        match self.evaluate(turtle, expr) {
            Err(e) => self.fail(turtle, e),
            Ok(values) => if values.len() != 2 {
                self.fail(turtle, LogoError::InvalidAssignment)
            } else if !self.vars.contains_key(values[0]) {
                self.fail(turtle, LogoError::VariableNotFound)
            } else {
                match (parse_int(self.vars[values[0]]), parse_int(values[1])) {
                    (Some(a), Some(b)) => if in_range(a + b) {
                        Evaluator {
                            vars: self.vars.insert(values[0], int_text(a + b)),
                            ..self
                        }.done(turtle)
                    } else {
                        self.fail(turtle, LogoError::Overflow)
                    },
                    _ => self.fail(turtle, LogoError::NotANumber),
                }
            },
        }
    }

    /// A procedure definition. The first line of the text holds the name and
    /// then an expression for the names of the parameters, of which there is
    /// at least one; in it a reference to a variable stands for the name
    /// itself, as a literal does. The lines after the first, up to the
    /// closing `END`, are the body. The definition takes the place of any
    /// earlier one of that name.
    pub open spec fn define(self, turtle: Turtle, expr: Seq<char>) -> Outcome {
        let start = word_start(expr, 0);
        match after_char(expr, '\n', start) {
            None => self.fail(turtle, LogoError::InvalidProcedureDefinition),
            Some(next) => {
                let header = words(expr.subrange(start, next - 1));
                if header.len() < 2 || expr.len() < next + 3 || expr.subrange(
                    expr.len() - 3,
                    expr.len() as int,
                ) != END@ {
                    self.fail(turtle, LogoError::InvalidProcedureDefinition)
                } else {
                    match self.eval_tokens(turtle, as_literals(header.skip(1))) {
                        Err(e) => self.fail(turtle, e),
                        Ok(params) => if params.len() < 1 {
                            self.fail(turtle, LogoError::InvalidProcedureDefinition)
                        } else {
                            Evaluator {
                                procs: self.procs.insert(
                                    header[0],
                                    Procedure {
                                        source_code: expr.subrange(next, expr.len() - 3),
                                        args: params,
                                    },
                                ),
                                ..self
                            }.done(turtle)
                        },
                    }
                }
            },
        }
    }

    /// The run of a text in an evaluator nested in this one: it starts at the
    /// beginning of the text, has the given arguments, and shares the
    /// variables and the procedures. The text is closed by a newline: what
    /// closes a block ends its last line too.
    pub open spec fn nested(
        self,
        turtle: Turtle,
        source: Seq<char>,
        args: Map<Seq<char>, Seq<char>>,
    ) -> Outcome
        decreases self.depth, 0int, 0int,
    {
        if self.depth == 0 {
            self.fail(turtle, LogoError::NestingTooDeep)
        } else {
            let inner = Evaluator {
                source: source.push('\n'),
                cursor: 0,
                args,
                depth: (self.depth - 1) as nat,
                vars: self.vars,
                procs: self.procs,
            }.run(turtle);
            Outcome {
                evaluator: Evaluator {
                    vars: inner.evaluator.vars,
                    procs: inner.evaluator.procs,
                    ..self
                },
                turtle: inner.turtle,
                result: inner.result,
            }
        }
    }

    /// A loop with at most `remaining` more rounds: as long as the condition
    /// is true, the block is run in a nested evaluator without arguments.
    pub open spec fn repeat(
        self,
        turtle: Turtle,
        cond: Seq<char>,
        block: Seq<char>,
        remaining: nat,
    ) -> Outcome
        decreases self.depth, 1int, remaining,
    {
        if remaining == 0 {
            self.done(turtle)
        } else {
            match self.condition(turtle, cond) {
                Err(e) => self.fail(turtle, e),
                Ok(false) => self.done(turtle),
                Ok(true) => {
                    let round = self.nested(turtle, block, Map::empty());
                    if round.result is Err {
                        round
                    } else {
                        Evaluator {
                            vars: round.evaluator.vars,
                            procs: round.evaluator.procs,
                            ..self
                        }.repeat(round.turtle, cond, block, (remaining - 1) as nat)
                    }
                },
            }
        }
    }

    /// A conditional or a loop. The text up to the first opening bracket is
    /// the condition; the text after it, without the last character of the
    /// statement, is the block. A conditional runs the block once if the
    /// condition is true; a loop runs it as long as the condition is true,
    /// and at most `MAX_ITERATIONS` times.
    pub open spec fn conditional(
        self,
        turtle: Turtle,
        once: bool,
        expr: Seq<char>,
    ) -> Outcome
        decreases self.depth, 2int, 0int,
    {
        match after_char(expr, '[', 0) {
            None => self.fail(turtle, LogoError::InvalidConditional),
            Some(next) => {
                let cond = expr.subrange(0, next - 1);
                let block = if next < expr.len() {
                    expr.subrange(next, expr.len() - 1)
                } else {
                    Seq::empty()
                };
                if once {
                    match self.condition(turtle, cond) {
                        Err(e) => self.fail(turtle, e),
                        Ok(false) => self.done(turtle),
                        Ok(true) => self.nested(turtle, block, Map::empty()),
                    }
                } else {
                    self.repeat(turtle, cond, block, MAX_ITERATIONS as nat)
                }
            },
        }
    }

    /// A call of the procedure `name`: the expression yields as many values
    /// as the procedure has parameters, and its body is run in a nested
    /// evaluator with each parameter bound to its value.
    pub open spec fn call(self, turtle: Turtle, name: Seq<char>, expr: Seq<char>) -> Outcome
        decreases self.depth, 2int, 0int,
    {
        if !self.procs.contains_key(name) {
            self.fail(turtle, LogoError::UnknownProcedure)
        } else {
            let procedure = self.procs[name];
            match self.evaluate(turtle, expr) {
                Err(e) => self.fail(turtle, e),
                Ok(values) => if values.len() != procedure.args.len() {
                    self.fail(turtle, LogoError::InvalidArgumentCount)
                } else {
                    self.nested(
                        turtle,
                        procedure.source_code,
                        bind(procedure.args, values, values.len()),
                    )
                },
            }
        }
    }

    /// The statement that `token` starts and that has the body `expr`.
    pub open spec fn execute(self, turtle: Turtle, token: Seq<char>, expr: Seq<char>) -> Outcome
        decreases self.depth, 3int, 0int,
    {
        if token == COMMENT@ {
            self.done(turtle)
        } else if builtin(token) {
            self.command(turtle, token, expr)
        } else if token == MAKE@ {
            self.assign(turtle, expr)
        } else if token == ADDASSIGN@ {
            self.increment(turtle, expr)
        } else if token == IF@ || token == WHILE@ {
            self.conditional(turtle, token == IF@, expr)
        } else if token == TO@ {
            self.define(turtle, expr)
        } else {
            self.call(turtle, token, expr)
        }
    }

    /// The token at the cursor.
    pub open spec fn token(self) -> Seq<char> {
        if 0 <= self.cursor <= self.source.len() {
            self.source.subrange(self.cursor, token_end(self.source, self.cursor))
        } else {
            Seq::empty()
        }
    }

    /// The evaluator with its cursor at another place.
    pub open spec fn at(self, cursor: int) -> Evaluator {
        Evaluator { cursor, ..self }
    }

    /// The statement at the cursor; past the end of the text there is none,
    /// and nothing changes. A blank token
    /// is passed over, by one character where it is empty. Otherwise the
    /// cursor goes to the end of the token and, where the statement has its
    /// terminator, to the end of its body, and the statement is executed.
    pub open spec fn step(self, turtle: Turtle) -> Outcome
        decreases self.depth, 4int, 0int,
    {
        let token = self.token();
        let from = self.cursor + token.len();
        if !(0 <= self.cursor < self.source.len()) {
            self.done(turtle)
        } else if token.len() == 0 {
            self.at(self.cursor + 1).done(turtle)
        } else if blank(token) {
            self.at(from).done(turtle)
        } else {
            match body_end(self.source, from, terminator_of(token)) {
                None => self.at(from).fail(turtle, LogoError::UnterminatedStatement),
                Some(end) => self.at(end).execute(turtle, token, self.source.subrange(from, end)),
            }
        }
    }

    /// The statements from the cursor to the end of the text, one after the
    /// other, up to the first that fails.
    pub open spec fn run(self, turtle: Turtle) -> Outcome
        decreases self.depth, 5int, self.source.len() - self.cursor,
    {
        if 0 <= self.cursor < self.source.len() {
            let after = self.step(turtle);
            if after.result is Err {
                after
            } else {
                proof {
                    lemma_statement_end(self.source, self.cursor);
                }
                Evaluator {
                    cursor: self.statement_end(),
                    vars: after.evaluator.vars,
                    procs: after.evaluator.procs,
                    ..self
                }.run(after.turtle)
            }
        } else {
            self.done(turtle)
        }
    }

    /// The index at which the statement at the cursor ends.
    pub open spec fn statement_end(self) -> int {
        next_statement(self.source, self.cursor)
    }
}

/// The index at which the statement at `cursor` ends: one past an empty
/// token, the end of a blank one, else the end of the body, or that of the
/// token where the body has no end.
pub open spec fn next_statement(source: Seq<char>, cursor: int) -> int {
    let end = token_end(source, cursor);
    let token = source.subrange(cursor, end);
    if end == cursor {
        cursor + 1
    } else if blank(token) {
        end
    } else {
        match body_end(source, end, terminator_of(token)) {
            None => end,
            Some(e) => e,
        }
    }
}

/// The index of the first character at or after `i` that is no whitespace,
/// or the length of the text.
pub open spec fn word_start(s: Seq<char>, i: int) -> int
    decreases s.len() - i,
{
    if 0 <= i < s.len() && whitespace(s[i]) {
        word_start(s, i + 1)
    } else {
        i
    }
}

impl Evaluator {
    /// Whether another evaluator runs the same text at the same place, with
    /// the same arguments and the same room for nesting.
    pub open spec fn same_frame(self, other: Evaluator) -> bool {
        &&& self.source == other.source
        &&& self.cursor == other.cursor
        &&& self.args == other.args
        &&& self.depth == other.depth
    }
}

/// A loop changes nothing of an evaluator but its variables and procedures.
pub proof fn lemma_repeat_frame(
    evaluator: Evaluator,
    turtle: Turtle,
    cond: Seq<char>,
    block: Seq<char>,
    remaining: nat,
)
    ensures
        evaluator.repeat(turtle, cond, block, remaining).evaluator.same_frame(evaluator),
    decreases remaining,
{
    if remaining > 0 {
        if evaluator.condition(turtle, cond) == Ok::<bool, LogoError>(true) {
            let round = evaluator.nested(turtle, block, Map::empty());
            if round.result is Ok {
                lemma_repeat_frame(
                    Evaluator {
                        vars: round.evaluator.vars,
                        procs: round.evaluator.procs,
                        ..evaluator
                    },
                    round.turtle,
                    cond,
                    block,
                    (remaining - 1) as nat,
                );
            }
        }
    }
}

/// A statement changes nothing of an evaluator but its variables and
/// procedures.
pub proof fn lemma_execute_frame(
    evaluator: Evaluator,
    turtle: Turtle,
    token: Seq<char>,
    expr: Seq<char>,
)
    ensures
        evaluator.execute(turtle, token, expr).evaluator.same_frame(evaluator),
{
    if token == IF@ || token == WHILE@ {
        match after_char(expr, '[', 0) {
            None => {},
            Some(next) => {
                let cond = expr.subrange(0, next - 1);
                let block = if next < expr.len() {
                    expr.subrange(next, expr.len() - 1)
                } else {
                    Seq::empty()
                };
                lemma_repeat_frame(evaluator, turtle, cond, block, MAX_ITERATIONS as nat);
            },
        }
    }
}

/// A step moves the cursor to the end of the statement, and changes nothing
/// else of an evaluator but its variables and procedures.
pub proof fn lemma_step_frame(evaluator: Evaluator, turtle: Turtle)
    requires
        0 <= evaluator.cursor < evaluator.source.len(),
    ensures
        evaluator.step(turtle).evaluator.same_frame(evaluator.at(evaluator.statement_end())),
{
    let token = evaluator.token();
    let from = evaluator.cursor + token.len();
    lemma_token_end(evaluator.source, evaluator.cursor);
    if token.len() != 0 && !blank(token) {
        match body_end(evaluator.source, from, terminator_of(token)) {
            None => {},
            Some(end) => {
                lemma_execute_frame(
                    evaluator.at(end),
                    turtle,
                    token,
                    evaluator.source.subrange(from, end),
                );
            },
        }
    }
}

/// A failure in the tokens from some index on is the failure of every longer
/// run of tokens that ends with them.
pub proof fn lemma_failure_spreads(
    evaluator: Evaluator,
    turtle: Turtle,
    tokens: Seq<Seq<char>>,
    from: int,
    i: int,
)
    requires
        0 <= from <= i <= tokens.len(),
    ensures
        evaluator.eval_tokens(turtle, tokens.skip(i)) is Err ==> evaluator.eval_tokens(
            turtle,
            tokens.skip(from),
        ) == evaluator.eval_tokens(turtle, tokens.skip(i)),
    decreases i - from,
{
    if from < i {
        lemma_failure_spreads(evaluator, turtle, tokens, from + 1, i);
        assert(tokens.skip(from).drop_first() =~= tokens.skip(from + 1));
    }
}

/// A token ends within the text, at a separator or at the end, and holds no
/// separator.
pub proof fn lemma_token_end(text: Seq<char>, i: int)
    requires
        0 <= i <= text.len(),
    ensures
        i <= token_end(text, i) <= text.len(),
        forall|k: int| i <= k < token_end(text, i) ==> !separator(#[trigger] text[k]),
        token_end(text, i) < text.len() ==> separator(text[token_end(text, i)]),
    decreases text.len() - i,
{
    if i < text.len() && !separator(text[i]) {
        lemma_token_end(text, i + 1);
    }
}

/// The first occurrence of a character is the first: none comes before it.
pub proof fn lemma_after_char(text: Seq<char>, c: char, from: int)
    requires
        0 <= from,
    ensures
        match after_char(text, c, from) {
            Some(e) => from < e <= text.len() && text[e - 1] == c && forall|k: int|
                from <= k < e - 1 ==> #[trigger] text[k] != c,
            None => forall|k: int| from <= k < text.len() ==> #[trigger] text[k] != c,
        },
    decreases text.len() - from,
{
    if from < text.len() && text[from] != c {
        lemma_after_char(text, c, from + 1);
    }
}

/// The index after an `END` has the three letters before it.
pub proof fn lemma_after_end(text: Seq<char>, from: int)
    requires
        0 <= from,
    ensures
        match after_end(text, from) {
            Some(e) => from + 3 <= e <= text.len() && text.subrange(e - 3, e) == END@,
            None => true,
        },
    decreases text.len() - from,
{
    if from + 3 <= text.len() && text.subrange(from, from + 3) != END@ {
        lemma_after_end(text, from + 1);
    }
}

/// The index after the matching bracket has a closing bracket before it.
pub proof fn lemma_after_bracket(text: Seq<char>, from: int, open: nat)
    requires
        0 <= from,
    ensures
        match after_bracket(text, from, open) {
            Some(e) => from < e <= text.len() && text[e - 1] == ']',
            None => true,
        },
    decreases text.len() - from,
{
    if from < text.len() {
        if text[from] == '[' {
            lemma_after_bracket(text, from + 1, open + 1);
        } else if text[from] == ']' {
            if open > 1 {
                lemma_after_bracket(text, from + 1, (open - 1) as nat);
            }
        } else {
            lemma_after_bracket(text, from + 1, open);
        }
    }
}

/// A body ends at or after its start, within the text.
pub proof fn lemma_body_end(text: Seq<char>, from: int, terminator: Terminator)
    requires
        0 <= from,
    ensures
        match body_end(text, from, terminator) {
            Some(e) => from < e <= text.len(),
            None => true,
        },
{
    lemma_after_char(text, '\n', from);
    lemma_after_end(text, from);
    lemma_after_bracket(text, from, 0);
}

/// A statement inside the text ends after its start, within the text.
pub proof fn lemma_statement_end(source: Seq<char>, cursor: int)
    requires
        0 <= cursor < source.len(),
    ensures
        cursor < next_statement(source, cursor) <= source.len(),
{
    lemma_token_end(source, cursor);
    let end = token_end(source, cursor);
    lemma_body_end(source, end, terminator_of(source.subrange(cursor, end)));
}

} // verus!
