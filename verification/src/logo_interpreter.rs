//! The evaluator: it reads a program statement by statement and drives the
//! turtle.

use crate::error::LogoError;
use crate::keywords::{
    ADDASSIGN, BACK, COLOR, COMMENT, DIVIDE, END, EQ, FALSE, FORWARD, GT, HEADING, IF, LEFT, LT,
    MAKE, MINUS, NE, PENDOWN, PENUP, PLUS, RIGHT, SETHEADING, SETPENCOLOR, SETX, SETY, TIMES, TO,
    TRUE, TURN, WHILE, XCOR, YCOR,
};
use crate::logo_runner::LogoRunner;
use crate::scanner::{
    find_after_char, find_body_end, find_token_end, find_word_start, is_blank,
};
use crate::semantics::{
    as_literal, as_literals, bind, body_end, builtin, compare, compute, lemma_body_end, lemma_failure_spreads,
    lemma_statement_end, lemma_step_frame, lemma_token_end, terminator_of, Evaluator, Outcome,
    Procedure, Terminator, MAX_DEPTH, MAX_ITERATIONS,
};
use crate::table::Table;
use crate::text::{
    copy, copy_all, i32_text, is_word, parse_i32, reverse, reversed, slice, split_whitespace,
    texts, to_chars,
};
use vstd::prelude::*;

verus! {

/// A procedure that a program has defined.
pub struct LogoProcedure {
    source_code: Vec<char>,
    args: Vec<Vec<char>>,
}

impl View for LogoProcedure {
    type V = Procedure;

    closed spec fn view(&self) -> Procedure {
        Procedure { source_code: self.source_code@, args: texts(self.args@) }
    }
}

/// An evaluator over one text.
pub struct LogoInterpreter {
    source_code: Vec<char>,
    cursor: usize,
    var_table: Table<Vec<char>>,
    procedure_table: Table<LogoProcedure>,
    arg_vars_table: Table<Vec<char>>,
    depth: usize,
}

impl View for LogoInterpreter {
    type V = Evaluator;

    closed spec fn view(&self) -> Evaluator {
        Evaluator {
            source: self.source_code@,
            cursor: self.cursor as int,
            args: self.arg_vars_table@,
            depth: self.depth as nat,
            vars: self.var_table@,
            procs: self.procedure_table@,
        }
    }
}

/// What an arithmetic operator makes of two integers.
fn calculate(op: &Vec<char>, a: i32, b: i32) -> (result: Result<i32, LogoError>)
    ensures
        match compute(op@, a as int, b as int) {
            Ok(r) => result == Ok::<i32, LogoError>(r as i32) && r == result.unwrap(),
            Err(e) => result == Err::<i32, LogoError>(e),
        },
{
    let x: i64 = a as i64;
    let y: i64 = b as i64;
    let r: i64 = if is_word(op, PLUS) {
        x + y
    } else if is_word(op, MINUS) {
        x - y
    } else if is_word(op, TIMES) {
        assert(-0x4000_0000_0000_0000 <= x * y <= 0x4000_0000_0000_0000) by (nonlinear_arith)
            requires
                -0x8000_0000 <= x <= 0x8000_0000,
                -0x8000_0000 <= y <= 0x8000_0000,
        ;
        x * y
    } else {
        if b == 0 {
            return Err(LogoError::DivisionByZero);
        }
        let n: i64 = if x < 0 {
            -x
        } else {
            x
        };
        let d: i64 = if y < 0 {
            -y
        } else {
            y
        };
        let q: i64 = n / d;
        if (x < 0) != (y < 0) {
            -q
        } else {
            q
        }
    };
    if r < -0x8000_0000 || r > 0x7fff_ffff {
        Err(LogoError::Overflow)
    } else {
        Ok(r as i32)
    }
}

impl LogoInterpreter {
    /// An evaluator over a text, without variables or arguments.
    pub fn default(source_code: String) -> (interpreter: Self)
        ensures
            interpreter@ == (Evaluator {
                source: source_code@,
                cursor: 0,
                args: Map::empty(),
                depth: MAX_DEPTH as nat,
                vars: Map::empty(),
                procs: Map::empty(),
            }),
    {
        Self::new(source_code, Table::new())
    }

    /// An evaluator over a text, with the given variables.
    pub fn new(source_code: String, var_table: Table<Vec<char>>) -> (interpreter: Self)
        ensures
            interpreter@ == (Evaluator {
                source: source_code@,
                cursor: 0,
                args: Map::empty(),
                depth: MAX_DEPTH as nat,
                vars: var_table@,
                procs: Map::empty(),
            }),
    {
        Self::new_with_args(source_code, var_table, Table::new())
    }

    /// An evaluator over a text, with the given variables and the given
    /// arguments.
    pub fn new_with_args(
        source_code: String,
        var_table: Table<Vec<char>>,
        arg_vars_table: Table<Vec<char>>,
    ) -> (interpreter: Self)
        ensures
            interpreter@ == (Evaluator {
                source: source_code@,
                cursor: 0,
                args: arg_vars_table@,
                depth: MAX_DEPTH as nat,
                vars: var_table@,
                procs: Map::empty(),
            }),
    {
        Self {
            source_code: to_chars(source_code.as_str()),
            cursor: 0,
            var_table,
            arg_vars_table,
            procedure_table: Table::new(),
            depth: MAX_DEPTH,
        }
    }

    /// The token at the cursor.
    pub fn next_token(&self) -> (token: Vec<char>)
        ensures
            token@ == self@.token(),
    {
        if self.cursor > self.source_code.len() {
            return Vec::new();
        }
        let end: usize = find_token_end(&self.source_code, self.cursor);
        slice(&self.source_code, self.cursor, end)
    }

    /// The body that starts at the cursor, with its terminator.
    pub fn collect_expr(&self, terminator: Terminator) -> (result: Result<Vec<char>, LogoError>)
        ensures
            match body_end(self@.source, self@.cursor, terminator) {
                Some(end) => result is Ok && result.unwrap()@ == self@.source.subrange(
                    self@.cursor,
                    end,
                ),
                None => result == Err::<Vec<char>, LogoError>(LogoError::UnterminatedStatement),
            },
    {
        match find_body_end(&self.source_code, self.cursor, terminator) {
            Some(end) => Ok(slice(&self.source_code, self.cursor, end)),
            None => Err(LogoError::UnterminatedStatement),
        }
    }

    /// Whether a token names a command of the turtle.
    pub fn is_builtin_fn(token: &Vec<char>) -> (b: bool)
        ensures
            b == builtin(token@),
    {
        is_word(token, PENUP) || is_word(token, PENDOWN) || is_word(token, FORWARD) || is_word(
            token,
            BACK,
        ) || is_word(token, LEFT) || is_word(token, RIGHT) || is_word(token, SETX) || is_word(
            token,
            SETY,
        ) || is_word(token, SETPENCOLOR) || is_word(token, TURN) || is_word(token, SETHEADING)
    }

    /// What ends the body of the statement that a token starts.
    pub fn get_terminator(token: &Vec<char>) -> (terminator: Terminator)
        ensures
            terminator == terminator_of(token@),
    {
        if is_word(token, TO) {
            Terminator::End
        } else if is_word(token, IF) || is_word(token, WHILE) {
            Terminator::Bracket
        } else {
            Terminator::Newline
        }
    }

    /// Compares two values.
    pub fn logical_op(&self, left: &Vec<char>, right: &Vec<char>, op: &Vec<char>) -> (result:
        Result<bool, LogoError>)
        ensures
            result == compare(op@, left@, right@),
    {
        let left_true: bool = is_word(left, TRUE);
        let left_boolean: bool = left_true || is_word(left, FALSE);
        let right_true: bool = is_word(right, TRUE);
        let right_boolean: bool = right_true || is_word(right, FALSE);
        if left_boolean || right_boolean {
            if !left_boolean || !right_boolean {
                return Err(LogoError::TypeMismatch);
            }
            proof {
                reveal_strlit("TRUE");
                reveal_strlit("FALSE");
            }
            if is_word(op, EQ) {
                Ok(left_true == right_true)
            } else if is_word(op, NE) {
                Ok(left_true != right_true)
            } else {
                Err(LogoError::InvalidOperator)
            }
        } else {
            match (parse_i32(left), parse_i32(right)) {
                (Some(a), Some(b)) => {
                    if is_word(op, EQ) {
                        Ok(a == b)
                    } else if is_word(op, NE) {
                        Ok(a != b)
                    } else if is_word(op, LT) {
                        Ok(a < b)
                    } else if is_word(op, GT) {
                        Ok(a > b)
                    } else {
                        Err(LogoError::InvalidOperator)
                    }
                },
                _ => Err(LogoError::NotANumber),
            }
        }
    }

    /// Applies one token to the stack of values, whose top is its last
    /// element.
    pub fn apply_token(
        &self,
        token: &Vec<char>,
        stack: &mut Vec<Vec<char>>,
        runner: &LogoRunner,
    ) -> (result: Result<(), LogoError>)
        ensures
            match self@.apply(runner@, token@, reversed(texts(old(stack)@))) {
                Ok(values) => result == Ok::<(), LogoError>(()) && reversed(
                    texts(final(stack)@),
                ) == values,
                Err(e) => result == Err::<(), LogoError>(e),
            },
    {
        let is_arithmetic: bool = is_word(token, PLUS) || is_word(token, MINUS) || is_word(
            token,
            TIMES,
        ) || is_word(token, DIVIDE);
        let is_relational: bool = is_word(token, EQ) || is_word(token, NE) || is_word(token, LT)
            || is_word(token, GT);
        if is_arithmetic || is_relational {
            if stack.len() < 2 {
                return Err(LogoError::StackUnderflow);
            }
            let left: Vec<char> = stack.pop().unwrap();
            let right: Vec<char> = stack.pop().unwrap();
            let value: Vec<char> = if is_arithmetic {
                match (parse_i32(&left), parse_i32(&right)) {
                    (Some(a), Some(b)) => i32_text(calculate(token, a, b)?),
                    _ => {
                        return Err(LogoError::NotANumber);
                    },
                }
            } else if self.logical_op(&left, &right, token)? {
                to_chars(TRUE)
            } else {
                to_chars(FALSE)
            };
            self::put(stack, value);
            Ok(())
        } else if token.len() > 0 && token[0] == '"' {
            let literal: Vec<char> = slice(token, 1, token.len());
            self::put(stack, literal);
            Ok(())
        } else if token.len() > 0 && token[0] == ':' {
            let name: Vec<char> = slice(token, 1, token.len());
            let value: Vec<char> = match self.arg_vars_table.get(&name) {
                Some(v) => copy(v),
                None => match self.var_table.get(&name) {
                    Some(v) => copy(v),
                    None => {
                        return Err(LogoError::UndefinedVariable);
                    },
                },
            };
            self::put(stack, value);
            Ok(())
        } else if is_word(token, XCOR) {
            self::put(stack, i32_text(runner.get_pos_x()));
            Ok(())
        } else if is_word(token, YCOR) {
            self::put(stack, i32_text(runner.get_pos_y()));
            Ok(())
        } else if is_word(token, HEADING) {
            self::put(stack, i32_text(runner.get_direction()));
            Ok(())
        } else if is_word(token, COLOR) {
            self::put(stack, i32_text(runner.get_color_index()));
            Ok(())
        } else {
            Ok(())
        }
    }

    /// The values of the tokens from index `from` on, read in prefix
    /// notation.
    pub fn evaluate_tokens(&self, tokens: &Vec<Vec<char>>, from: usize, runner: &LogoRunner) -> (
        result: Result<Vec<Vec<char>>, LogoError>)
        requires
            from <= tokens.len(),
        ensures
            match self@.eval_tokens(runner@, texts(tokens@).skip(from as int)) {
                Ok(values) => result is Ok && texts(result.unwrap()@) == values,
                Err(e) => result == Err::<Vec<Vec<char>>, LogoError>(e),
            },
    {
        let ghost all = texts(tokens@);
        let mut stack: Vec<Vec<char>> = Vec::new();
        let mut i: usize = tokens.len();
        assert(reversed(texts(stack@)) =~= Seq::<Seq<char>>::empty());
        while i > from
            invariant
                from <= i <= tokens.len(),
                all == texts(tokens@),
                self@.eval_tokens(runner@, all.skip(i as int)) == Ok::<Seq<Seq<char>>, LogoError>(
                    reversed(texts(stack@)),
                ),
            decreases i,
        {
            i -= 1;
            proof {
                assert(all.skip(i as int).drop_first() =~= all.skip(i + 1));
                lemma_failure_spreads(self@, runner@, all, from as int, i as int);
            }
            self.apply_token(&tokens[i], &mut stack, runner)?;
        }
        Ok(reverse(&stack))
    }

    /// The values of an expression, in the order in which they are written.
    pub fn evaluate_expr(&self, expr: &Vec<char>, runner: &LogoRunner) -> (result: Result<
        Vec<Vec<char>>,
        LogoError,
    >)
        ensures
            match self@.evaluate(runner@, expr@) {
                Ok(values) => result is Ok && texts(result.unwrap()@) == values,
                Err(e) => result == Err::<Vec<Vec<char>>, LogoError>(e),
            },
    {
        let tokens = split_whitespace(expr);
        assert(texts(tokens@).skip(0) =~= texts(tokens@));
        self.evaluate_tokens(&tokens, 0, runner)
    }

    /// The truth value of a condition.
    pub fn check_condition(&self, cond: &Vec<char>, runner: &LogoRunner) -> (result: Result<
        bool,
        LogoError,
    >)
        ensures
            result == self@.condition(runner@, cond@),
    {
        let values = self.evaluate_expr(cond, runner)?;
        if values.len() != 1 {
            return Err(LogoError::InvalidCondition);
        }
        if is_word(&values[0], TRUE) {
            Ok(true)
        } else if is_word(&values[0], FALSE) {
            proof {
                reveal_strlit("TRUE");
                reveal_strlit("FALSE");
            }
            Ok(false)
        } else {
            Err(LogoError::InvalidCondition)
        }
    }

    /// Runs a command of the turtle.
    pub fn evaluate_builtin_fn(
        &self,
        token: &Vec<char>,
        expr: &Vec<char>,
        runner: &mut LogoRunner,
    ) -> (result: Result<(), LogoError>)
        ensures
            (Outcome { evaluator: self@, turtle: final(runner)@, result }) == self@.command(
                old(runner)@,
                token@,
                expr@,
            ),
    {
        let values = self.evaluate_expr(expr, runner)?;
        if is_word(token, PENUP) || is_word(token, PENDOWN) {
            if values.len() != 0 {
                return Err(LogoError::InvalidArgument);
            }
            if is_word(token, PENDOWN) {
                runner.pen_down();
            } else {
                runner.pen_up();
            }
            return Ok(());
        }
        if !Self::is_builtin_fn(token) {
            return Err(LogoError::UnknownCommand);
        }
        if values.len() != 1 {
            return Err(LogoError::InvalidArgument);
        }
        let v: i32 = match parse_i32(&values[0]) {
            Some(v) => v,
            None => {
                return Err(LogoError::InvalidArgument);
            },
        };
        self::act(token, v, runner)
    }

    /// Binds a name to a value.
    pub fn evaluate_make_statement(&mut self, expr: &Vec<char>, runner: &LogoRunner) -> (result:
        Result<(), LogoError>)
        ensures
            (Outcome { evaluator: final(self)@, turtle: runner@, result }) == old(self)@.assign(
                runner@,
                expr@,
            ),
    {
        let mut values = self.evaluate_expr(expr, runner)?;
        if values.len() != 2 {
            return Err(LogoError::InvalidAssignment);
        }
        let value: Vec<char> = values.pop().unwrap();
        let name: Vec<char> = values.pop().unwrap();
        self.var_table.insert(name, value);
        Ok(())
    }

    /// Adds an integer to a variable.
    pub fn evaluate_add_assign_statement(&mut self, expr: &Vec<char>, runner: &LogoRunner) -> (
        result: Result<(), LogoError>)
        ensures
            (Outcome { evaluator: final(self)@, turtle: runner@, result }) == old(
                self,
            )@.increment(runner@, expr@),
    {
        let mut values = self.evaluate_expr(expr, runner)?;
        if values.len() != 2 {
            return Err(LogoError::InvalidAssignment);
        }
        let value: Vec<char> = values.pop().unwrap();
        let name: Vec<char> = values.pop().unwrap();
        let old_value: Option<i32> = match self.var_table.get(&name) {
            Some(v) => parse_i32(v),
            None => {
                return Err(LogoError::VariableNotFound);
            },
        };
        match (old_value, parse_i32(&value)) {
            (Some(a), Some(b)) => {
                let sum: i64 = a as i64 + b as i64;
                if sum < -0x8000_0000 || sum > 0x7fff_ffff {
                    return Err(LogoError::Overflow);
                }
                self.var_table.insert(name, i32_text(sum as i32));
                Ok(())
            },
            _ => Err(LogoError::NotANumber),
        }
    }

    /// Records the definition of a procedure.
    pub fn evaluate_procedure_definition(&mut self, expr: &Vec<char>, runner: &LogoRunner) -> (
        result: Result<(), LogoError>)
        ensures
            (Outcome { evaluator: final(self)@, turtle: runner@, result }) == old(self)@.define(
                runner@,
                expr@,
            ),
    {
        let n: usize = expr.len();
        let start: usize = find_word_start(expr, 0);
        let next: usize = match find_after_char(expr, '\n', start) {
            Some(next) => next,
            None => {
                return Err(LogoError::InvalidProcedureDefinition);
            },
        };
        let header = split_whitespace(&slice(expr, start, next - 1));
        if header.len() < 2 || n - next < 3 {
            return Err(LogoError::InvalidProcedureDefinition);
        }
        proof {
            reveal_strlit("END");
            let tail = expr@.subrange(n - 3, n as int);
            if expr@[n - 3] == 'E' && expr@[n - 2] == 'N' && expr@[n - 1] == 'D' {
                assert(tail =~= END@);
            } else {
                assert(tail[0] == expr@[n - 3]);
                assert(tail[1] == expr@[n - 2]);
                assert(tail[2] == expr@[n - 1]);
            }
        }
        if !(expr[n - 3] == 'E' && expr[n - 2] == 'N' && expr[n - 1] == 'D') {
            return Err(LogoError::InvalidProcedureDefinition);
        }
        let names = self::literals(&header, 1);
        assert(texts(names@).skip(0) =~= texts(names@));
        let params = self.evaluate_tokens(&names, 0, runner)?;
        if params.len() < 1 {
            return Err(LogoError::InvalidProcedureDefinition);
        }
        let procedure = LogoProcedure { source_code: slice(expr, next, n - 3), args: params };
        self.procedure_table.insert(copy(&header[0]), procedure);
        Ok(())
    }

    /// Runs a text, closed by a newline, in an evaluator nested in this one,
    /// which shares its variables and procedures and has the given arguments.
    pub fn run_nested(
        &mut self,
        source: Vec<char>,
        args: Table<Vec<char>>,
        runner: &mut LogoRunner,
    ) -> (result: Result<(), LogoError>)
        ensures
            (Outcome { evaluator: final(self)@, turtle: final(runner)@, result }) == old(
                self,
            )@.nested(old(runner)@, source@, args@),
        decreases old(self)@.depth, 0int, 0int,
    {
        if self.depth == 0 {
            return Err(LogoError::NestingTooDeep);
        }
        let mut text: Vec<char> = source;
        text.push('\n');
        let mut inner = LogoInterpreter {
            source_code: text,
            cursor: 0,
            var_table: Table::new(),
            procedure_table: Table::new(),
            arg_vars_table: args,
            depth: self.depth - 1,
        };
        std::mem::swap(&mut inner.var_table, &mut self.var_table);
        std::mem::swap(&mut inner.procedure_table, &mut self.procedure_table);
        let result = inner.interpret(runner);
        std::mem::swap(&mut inner.var_table, &mut self.var_table);
        std::mem::swap(&mut inner.procedure_table, &mut self.procedure_table);
        result
    }

    /// Runs a block as long as a condition is true, `MAX_ITERATIONS` times at
    /// most.
    pub fn repeat(&mut self, cond: &Vec<char>, block: &Vec<char>, runner: &mut LogoRunner) -> (
        result: Result<(), LogoError>)
        ensures
            (Outcome { evaluator: final(self)@, turtle: final(runner)@, result }) == old(
                self,
            )@.repeat(old(runner)@, cond@, block@, MAX_ITERATIONS as nat),
        decreases old(self)@.depth, 1int, 0int,
    {
        let mut remaining: usize = MAX_ITERATIONS;
        while remaining > 0
            invariant
                self.depth == old(self).depth,
                self@.repeat(runner@, cond@, block@, remaining as nat) == old(self)@.repeat(
                    old(runner)@,
                    cond@,
                    block@,
                    MAX_ITERATIONS as nat,
                ),
            decreases remaining,
        {
            if !self.check_condition(cond, runner)? {
                return Ok(());
            }
            self.run_nested(copy(block), Table::new(), runner)?;
            remaining -= 1;
        }
        Ok(())
    }

    /// Runs a conditional or a loop.
    pub fn evaluate_conditional_statement(
        &mut self,
        token: &Vec<char>,
        expr: &Vec<char>,
        runner: &mut LogoRunner,
    ) -> (result: Result<(), LogoError>)
        ensures
            (Outcome { evaluator: final(self)@, turtle: final(runner)@, result }) == old(
                self,
            )@.conditional(old(runner)@, token@ == IF@, expr@),
        decreases old(self)@.depth, 2int, 0int,
    {
        let once: bool = is_word(token, IF);
        let next: usize = match find_after_char(expr, '[', 0) {
            Some(next) => next,
            None => {
                return Err(LogoError::InvalidConditional);
            },
        };
        let cond: Vec<char> = slice(expr, 0, next - 1);
        let block: Vec<char> = if next < expr.len() {
            slice(expr, next, expr.len() - 1)
        } else {
            Vec::new()
        };
        if once {
            if self.check_condition(&cond, runner)? {
                self.run_nested(block, Table::new(), runner)
            } else {
                Ok(())
            }
        } else {
            self.repeat(&cond, &block, runner)
        }
    }

    /// Calls the procedure that a token names.
    pub fn find_evaluate_procedure(
        &mut self,
        token: &Vec<char>,
        expr: &Vec<char>,
        runner: &mut LogoRunner,
    ) -> (result: Result<(), LogoError>)
        ensures
            (Outcome { evaluator: final(self)@, turtle: final(runner)@, result }) == old(
                self,
            )@.call(old(runner)@, token@, expr@),
        decreases old(self)@.depth, 2int, 0int,
    {
        let (params, source) = match self.procedure_table.get(token) {
            Some(procedure) => (copy_all(&procedure.args), copy(&procedure.source_code)),
            None => {
                return Err(LogoError::UnknownProcedure);
            },
        };
        let values = self.evaluate_expr(expr, runner)?;
        if values.len() != params.len() {
            return Err(LogoError::InvalidArgumentCount);
        }
        let args = self::bind_arguments(&params, &values);
        self.run_nested(source, args, runner)
    }

    /// Runs the statement at the cursor.
    pub fn interpret_expr(&mut self, runner: &mut LogoRunner) -> (result: Result<(), LogoError>)
        ensures
            (Outcome { evaluator: final(self)@, turtle: final(runner)@, result }) == old(
                self,
            )@.step(old(runner)@),
        decreases old(self)@.depth, 4int, 0int,
    {
        if self.cursor >= self.source_code.len() {
            return Ok(());
        }
        let token: Vec<char> = self.next_token();
        if token.len() == 0 {
            self.cursor += 1;
            return Ok(());
        }
        proof {
            lemma_token_end(self@.source, self@.cursor);
        }
        self.cursor += token.len();
        if is_blank(&token) {
            return Ok(());
        }
        let expr: Vec<char> = self.collect_expr(Self::get_terminator(&token))?;
        proof {
            lemma_body_end(self@.source, self@.cursor, terminator_of(token@));
        }
        self.cursor += expr.len();
        if is_word(&token, COMMENT) {
            Ok(())
        } else if Self::is_builtin_fn(&token) {
            self.evaluate_builtin_fn(&token, &expr, runner)
        } else if is_word(&token, MAKE) {
            self.evaluate_make_statement(&expr, runner)
        } else if is_word(&token, ADDASSIGN) {
            self.evaluate_add_assign_statement(&expr, runner)
        } else if is_word(&token, IF) || is_word(&token, WHILE) {
            self.evaluate_conditional_statement(&token, &expr, runner)
        } else if is_word(&token, TO) {
            self.evaluate_procedure_definition(&expr, runner)
        } else {
            self.find_evaluate_procedure(&token, &expr, runner)
        }
    }

    /// Runs the statements from the cursor to the end of the text, up to the
    /// first that fails.
    pub fn interpret(&mut self, runner: &mut LogoRunner) -> (result: Result<(), LogoError>)
        ensures
            (Outcome { evaluator: final(self)@, turtle: final(runner)@, result }) == old(
                self,
            )@.run(old(runner)@),
        decreases old(self)@.depth, 5int, 0int,
    {
        while self.cursor < self.source_code.len()
            invariant
                self.depth == old(self).depth,
                self@.run(runner@) == old(self)@.run(old(runner)@),
            decreases self.source_code.len() - self.cursor,
        {
            proof {
                lemma_step_frame(self@, runner@);
                lemma_statement_end(self@.source, self@.cursor);
            }
            self.interpret_expr(runner)?;
        }
        Ok(())
    }
}

/// Has the turtle do what a command asks for, with its integer argument.
fn act(token: &Vec<char>, v: i32, runner: &mut LogoRunner) -> (result: Result<(), LogoError>)
    ensures
        match Evaluator::act(token@, v as int, old(runner)@) {
            Ok(turtle) => result == Ok::<(), LogoError>(()) && final(runner)@ == turtle,
            Err(e) => result == Err::<(), LogoError>(e) && final(runner)@ == old(runner)@,
        },
{
    reveal(Evaluator::act);
    if is_word(token, FORWARD) {
        runner.draw_forward(v)
    } else if is_word(token, BACK) {
        runner.draw_backward(v)
    } else if is_word(token, LEFT) {
        runner.draw_left(v)
    } else if is_word(token, RIGHT) {
        runner.draw_right(v)
    } else if is_word(token, SETX) {
        let y: i32 = runner.get_pos_y();
        runner.set_pos(v, y);
        Ok(())
    } else if is_word(token, SETY) {
        let x: i32 = runner.get_pos_x();
        runner.set_pos(x, v);
        Ok(())
    } else if is_word(token, SETPENCOLOR) {
        runner.set_color(v)
    } else {
        runner.turn_degree(v);
        Ok(())
    }
}

/// The arguments of a call: each parameter bound to the value at its place.
fn bind_arguments(params: &Vec<Vec<char>>, values: &Vec<Vec<char>>) -> (args: Table<Vec<char>>)
    requires
        params.len() == values.len(),
    ensures
        args@ == bind(texts(params@), texts(values@), values.len() as nat),
{
    let mut args: Table<Vec<char>> = Table::new();
    let mut i: usize = 0;
    while i < params.len()
        invariant
            params.len() == values.len(),
            i <= params.len(),
            args@ == bind(texts(params@), texts(values@), i as nat),
        decreases params.len() - i,
    {
        args.insert(copy(&params[i]), copy(&values[i]));
        i += 1;
    }
    args
}

/// The tokens from index `from` on, each reference to a variable turned into
/// the literal of its name.
fn literals(tokens: &Vec<Vec<char>>, from: usize) -> (out: Vec<Vec<char>>)
    requires
        from <= tokens.len(),
    ensures
        texts(out@) == as_literals(texts(tokens@).skip(from as int)),
{
    let mut out: Vec<Vec<char>> = Vec::new();
    let mut i: usize = from;
    while i < tokens.len()
        invariant
            from <= i <= tokens.len(),
            out.len() == i - from,
            forall|k: int| 0 <= k < out.len() ==> (#[trigger] out@[k])@ == as_literal(
                tokens@[from + k]@,
            ),
        decreases tokens.len() - i,
    {
        let token = &tokens[i];
        let mut word: Vec<char> = copy(token);
        if word.len() > 0 && word[0] == ':' {
            word.set(0, '"');
            assert(word@ =~= as_literal(token@));
        }
        out.push(word);
        i += 1;
    }
    assert(texts(out@) =~= as_literals(texts(tokens@).skip(from as int)));
    out
}

/// Puts a value on top of a stack.
fn put(stack: &mut Vec<Vec<char>>, value: Vec<char>)
    ensures
        reversed(texts(final(stack)@)) == seq![value@] + reversed(texts(old(stack)@)),
{
    stack.push(value);
}

} // verus!
