//! What holds of every turtle and of every evaluator.

use crate::error::LogoError;
use crate::keywords::{spellings, COLOR, SETPENCOLOR};
use crate::logo_runner::{cosine, in_range, sine, step_x, step_y, Turtle, AHEAD, BEHIND};
use crate::semantics::{
    arithmetic, lemma_statement_end, lemma_step_frame, relational, Evaluator,
};
use crate::text::{int_text, lemma_int_text_parses, lemma_single_word, parse_int, whitespace};
use vstd::prelude::*;

verus! {

/// Half a turn added to a heading, as a heading.
proof fn half_turn_more(degrees: int)
    ensures
        (degrees + 180) % 360 == if degrees % 360 < 180 {
            degrees % 360 + 180
        } else {
            degrees % 360 - 180
        },
{
}

/// Half a turn changes the sign of the sine.
pub proof fn sine_of_the_opposite_heading(degrees: int)
    ensures
        sine(degrees + 180) == -sine(degrees),
        cosine(degrees + 180) == -cosine(degrees),
{
    half_turn_more(degrees);
    half_turn_more(degrees + 90);
}

/// A move in the opposite direction goes as far back along each axis as the
/// move went forth.
pub proof fn step_in_the_opposite_heading(heading: int, distance: int)
    ensures
        step_x((heading + 180) % 360, distance) == -step_x(heading % 360, distance),
        step_y((heading + 180) % 360, distance) == -step_y(heading % 360, distance),
{
    sine_of_the_opposite_heading(heading);
    let s = sine(heading);
    let c = cosine(heading);
    assert(distance * (-s) == -(distance * s)) by (nonlinear_arith);
    assert(distance * (-c) == -(distance * c)) by (nonlinear_arith);
}

/// A move of some distance at some angle from the heading, followed by a move
/// of the same distance at the opposite angle, brings the turtle back to its
/// position and leaves its heading as it was, whether the pen is up or down:
/// if the first move succeeds, so does the second. Forward and backward are
/// such a pair, and so are left and right.
pub proof fn move_and_return(turtle: Turtle, offset: int, distance: int)
    requires
        in_range(turtle.x),
        in_range(turtle.y),
        turtle.travel(offset, distance) is Ok,
    ensures
        turtle.travel(offset, distance).unwrap().travel(offset + 180, distance) is Ok,
        ({
            let back = turtle.travel(offset, distance).unwrap().travel(
                offset + 180,
                distance,
            ).unwrap();
            &&& back.x == turtle.x
            &&& back.y == turtle.y
            &&& back.heading == turtle.heading
            &&& back.pen_down == turtle.pen_down
            &&& back.color == turtle.color
        }),
{
    step_in_the_opposite_heading(turtle.heading + offset, distance);
}

/// A move forward followed by a move backward of the same distance brings
/// the turtle back to its position and leaves its heading as it was, whether
/// the pen is up or down: if the first move succeeds, so does the second.
pub proof fn forward_then_backward_returns(turtle: Turtle, distance: int)
    requires
        in_range(turtle.x),
        in_range(turtle.y),
        turtle.travel(AHEAD as int, distance) is Ok,
    ensures
        turtle.travel(AHEAD as int, distance).unwrap().travel(BEHIND as int, distance) is Ok,
        ({
            let back = turtle.travel(AHEAD as int, distance).unwrap().travel(
                BEHIND as int,
                distance,
            ).unwrap();
            &&& back.x == turtle.x
            &&& back.y == turtle.y
            &&& back.heading == turtle.heading
        }),
{
    move_and_return(turtle, AHEAD as int, distance);
}

/// A loop with no rounds left ends without a failure and changes nothing,
/// whatever its condition yields; and each round that it runs leaves it one
/// round fewer. So a loop ends after `MAX_ITERATIONS` rounds at the latest.
pub proof fn loop_ends_at_the_cap(
    evaluator: Evaluator,
    turtle: Turtle,
    cond: Seq<char>,
    block: Seq<char>,
    remaining: nat,
)
    ensures
        evaluator.repeat(turtle, cond, block, 0) == evaluator.done(turtle),
        remaining > 0 && evaluator.condition(turtle, cond) == Ok::<bool, LogoError>(true)
            && evaluator.nested(turtle, block, Map::empty()).result is Ok ==> ({
            let round = evaluator.nested(turtle, block, Map::empty());
            evaluator.repeat(turtle, cond, block, remaining) == round.evaluator.repeat(
                round.turtle,
                cond,
                block,
                (remaining - 1) as nat,
            )
        }),
{
    let round = evaluator.nested(turtle, block, Map::empty());
    assert(round.evaluator == Evaluator {
        vars: round.evaluator.vars,
        procs: round.evaluator.procs,
        ..evaluator
    });
}

/// A call with more or fewer values than the procedure has parameters fails,
/// and changes nothing.
pub proof fn wrong_argument_count_fails(
    evaluator: Evaluator,
    turtle: Turtle,
    name: Seq<char>,
    expr: Seq<char>,
)
    requires
        evaluator.procs.contains_key(name),
        evaluator.evaluate(turtle, expr) is Ok,
        evaluator.evaluate(turtle, expr).unwrap().len() != evaluator.procs[name].args.len(),
    ensures
        evaluator.call(turtle, name, expr) == evaluator.fail(
            turtle,
            LogoError::InvalidArgumentCount,
        ),
{
}

/// An operator that finds fewer than two values fails with a stack
/// underflow, whatever else the expression holds.
pub proof fn unmatched_operator_underflows(
    evaluator: Evaluator,
    turtle: Turtle,
    tokens: Seq<Seq<char>>,
)
    requires
        tokens.len() > 0,
        arithmetic(tokens[0]) || relational(tokens[0]),
        evaluator.eval_tokens(turtle, tokens.drop_first()) is Ok,
        evaluator.eval_tokens(turtle, tokens.drop_first()).unwrap().len() < 2,
    ensures
        evaluator.eval_tokens(turtle, tokens) == Err::<Seq<Seq<char>>, LogoError>(
            LogoError::StackUnderflow,
        ),
{
}

/// The color command takes exactly the indices of the palette, 0 to 15: with
/// one of them the turtle has that color afterwards and the color query
/// yields it, as a text that reads back as the index; with any other integer
/// the command fails and the turtle is as before, and so it does with
/// anything but one integer, or where its expression fails.
pub proof fn pen_color_is_set_and_read(evaluator: Evaluator, turtle: Turtle, expr: Seq<char>)
    ensures
        ({
            let after = evaluator.command(turtle, SETPENCOLOR@, expr);
            match evaluator.evaluate(turtle, expr) {
                Err(e) => after == evaluator.fail(turtle, e),
                Ok(values) => if values.len() == 1 && parse_int(values[0]) is Some {
                    let index = parse_int(values[0]).unwrap();
                    if 0 <= index <= 15 {
                        &&& after == evaluator.done(Turtle { color: index, ..turtle })
                        &&& evaluator.evaluate(after.turtle, COLOR@) == Ok::<
                            Seq<Seq<char>>,
                            LogoError,
                        >(seq![int_text(index)])
                        &&& parse_int(int_text(index)) == Some(index)
                    } else {
                        after == evaluator.fail(turtle, LogoError::InvalidColor)
                    }
                } else {
                    after == evaluator.fail(turtle, LogoError::InvalidArgument)
                },
            }
        }),
{
    reveal(Evaluator::act);
    spellings();
    if let Ok(values) = evaluator.evaluate(turtle, expr) {
        if values.len() == 1 && parse_int(values[0]) is Some {
            let index = parse_int(values[0]).unwrap();
            if 0 <= index <= 15 {
                let after = evaluator.command(turtle, SETPENCOLOR@, expr);
                lemma_int_text_parses(index);
                lemma_single_word(COLOR@);
                let none = Seq::<Seq<char>>::empty();
                assert(seq![COLOR@].drop_first() =~= none);
                assert(evaluator.eval_tokens(after.turtle, none) == Ok::<
                    Seq<Seq<char>>,
                    LogoError,
                >(none));
            }
        }
    }
}

/// A turn leaves the heading from 0 to 359, whatever it was and whichever
/// way the turn goes.
pub proof fn heading_stays_below_a_full_turn(turtle: Turtle, delta: int)
    ensures
        0 <= turtle.turned(delta).heading < 360,
{
}

/// A name that an assignment has bound reads back as the value it was bound
/// to, where no argument of the call has that name.
pub proof fn bound_variable_reads_back(
    evaluator: Evaluator,
    turtle: Turtle,
    expr: Seq<char>,
    name: Seq<char>,
    value: Seq<char>,
)
    requires
        evaluator.evaluate(turtle, expr) == Ok::<Seq<Seq<char>>, LogoError>(seq![name, value]),
        !evaluator.args.contains_key(name),
        forall|i: int| 0 <= i < name.len() ==> !whitespace(#[trigger] name[i]),
    ensures
        evaluator.assign(turtle, expr).result is Ok,
        evaluator.assign(turtle, expr).turtle == turtle,
        evaluator.assign(turtle, expr).evaluator.evaluate(turtle, seq![':'] + name) == Ok::<
            Seq<Seq<char>>,
            LogoError,
        >(seq![value]),
{
    let after = evaluator.assign(turtle, expr).evaluator;
    reads_variable(after, turtle, name);
}

/// An increment adds to the integer that a variable holds: the variable
/// reads back as the text of the sum, where no argument of the call has its
/// name.
pub proof fn incremented_variable_reads_back(
    evaluator: Evaluator,
    turtle: Turtle,
    expr: Seq<char>,
    name: Seq<char>,
    delta: Seq<char>,
)
    requires
        evaluator.evaluate(turtle, expr) == Ok::<Seq<Seq<char>>, LogoError>(seq![name, delta]),
        evaluator.vars.contains_key(name),
        parse_int(evaluator.vars[name]) is Some,
        parse_int(delta) is Some,
        in_range(parse_int(evaluator.vars[name]).unwrap() + parse_int(delta).unwrap()),
        !evaluator.args.contains_key(name),
        forall|i: int| 0 <= i < name.len() ==> !whitespace(#[trigger] name[i]),
    ensures
        evaluator.increment(turtle, expr).result is Ok,
        evaluator.increment(turtle, expr).turtle == turtle,
        ({
            let sum = parse_int(evaluator.vars[name]).unwrap() + parse_int(delta).unwrap();
            &&& evaluator.increment(turtle, expr).evaluator.evaluate(turtle, seq![':'] + name)
                == Ok::<Seq<Seq<char>>, LogoError>(seq![int_text(sum)])
            &&& parse_int(int_text(sum)) == Some(sum)
        }),
{
    let sum = parse_int(evaluator.vars[name]).unwrap() + parse_int(delta).unwrap();
    let after = evaluator.increment(turtle, expr).evaluator;
    reads_variable(after, turtle, name);
    lemma_int_text_parses(sum);
}

/// A reference to a variable that no argument hides yields its value.
proof fn reads_variable(evaluator: Evaluator, turtle: Turtle, name: Seq<char>)
    requires
        evaluator.vars.contains_key(name),
        !evaluator.args.contains_key(name),
        forall|i: int| 0 <= i < name.len() ==> !whitespace(#[trigger] name[i]),
    ensures
        evaluator.evaluate(turtle, seq![':'] + name) == Ok::<Seq<Seq<char>>, LogoError>(
            seq![evaluator.vars[name]],
        ),
{
    spellings();
    let token = seq![':'] + name;
    let none = Seq::<Seq<char>>::empty();
    assert forall|i: int| 0 <= i < token.len() implies !whitespace(#[trigger] token[i]) by {
        if i > 0 {
            assert(token[i] == name[i - 1]);
        }
    }
    lemma_single_word(token);
    assert(seq![token].drop_first() =~= none);
    assert(evaluator.eval_tokens(turtle, none) == Ok::<Seq<Seq<char>>, LogoError>(none));
    assert(token.skip(1) =~= name);
}

/// The pen decides whether a move leaves a line, and nothing else: with the
/// pen up the lines stay as they are, with the pen down the line from the old
/// position to the new one is added, in the turtle's color, and the turtle
/// arrives at the same place either way.
pub proof fn pen_decides_only_the_mark(turtle: Turtle, offset: int, distance: int)
    requires
        turtle.travel(offset, distance) is Ok,
    ensures
        ({
            let up = turtle.with_pen(false).travel(offset, distance);
            let down = turtle.with_pen(true).travel(offset, distance);
            &&& up is Ok
            &&& down is Ok
            &&& up.unwrap().x == down.unwrap().x
            &&& up.unwrap().y == down.unwrap().y
            &&& up.unwrap().heading == turtle.heading
            &&& down.unwrap().heading == turtle.heading
            &&& up.unwrap().lines == turtle.lines
            &&& down.unwrap().lines == turtle.lines.push(
                turtle.line_to(down.unwrap().x, down.unwrap().y),
            )
        }),
{
}

/// A run moves the cursor forward only and, where it does not fail, to the
/// end of the text; the text, the arguments and the room for nesting stay as
/// they are.
pub proof fn run_moves_forward(evaluator: Evaluator, turtle: Turtle)
    requires
        0 <= evaluator.cursor <= evaluator.source.len(),
    ensures
        ({
            let after = evaluator.run(turtle);
            &&& after.evaluator.source == evaluator.source
            &&& after.evaluator.args == evaluator.args
            &&& after.evaluator.depth == evaluator.depth
            &&& evaluator.cursor <= after.evaluator.cursor <= evaluator.source.len()
            &&& after.result is Ok ==> after.evaluator.cursor == evaluator.source.len()
        }),
    decreases evaluator.source.len() - evaluator.cursor,
{
    if evaluator.cursor < evaluator.source.len() {
        lemma_step_frame(evaluator, turtle);
        lemma_statement_end(evaluator.source, evaluator.cursor);
        let after = evaluator.step(turtle);
        if after.result is Ok {
            run_moves_forward(
                Evaluator {
                    cursor: evaluator.statement_end(),
                    vars: after.evaluator.vars,
                    procs: after.evaluator.procs,
                    ..evaluator
                },
                after.turtle,
            );
        }
    }
}

} // verus!
