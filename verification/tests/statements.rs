use rslogo::error::LogoError;
use rslogo::logo_interpreter::LogoInterpreter;
use rslogo::logo_runner::LogoRunner;
use rslogo::semantics::Terminator;
use rslogo::table::Table;

fn chars_of(s: &str) -> Vec<char> {
    s.chars().collect()
}

fn strings(list: &Vec<Vec<char>>) -> Vec<String> {
    list.iter().map(|t| t.iter().collect()).collect()
}

fn values(interpreter: &LogoInterpreter, runner: &LogoRunner, expr: &str) -> Vec<String> {
    strings(&interpreter.evaluate_expr(&chars_of(expr), runner).expect("values"))
}

#[test]
fn the_constructors_take_variables_and_arguments() {
    let runner = LogoRunner::new(10, 10);
    let mut vars: Table<Vec<char>> = Table::new();
    vars.insert(chars_of("a"), chars_of("global"));
    vars.insert(chars_of("b"), chars_of("global"));
    let mut args: Table<Vec<char>> = Table::new();
    args.insert(chars_of("b"), chars_of("argument"));
    args.insert(chars_of("c"), chars_of("argument"));
    let interpreter = LogoInterpreter::new_with_args(String::new(), vars, args);
    assert_eq!(values(&interpreter, &runner, ":a :b :c"), vec!["global", "argument", "argument"]);
    let mut vars: Table<Vec<char>> = Table::new();
    vars.insert(chars_of("a"), chars_of("1"));
    let interpreter = LogoInterpreter::new(String::new(), vars);
    assert_eq!(values(&interpreter, &runner, ":a"), vec!["1"]);
    let interpreter = LogoInterpreter::default(String::new());
    assert_eq!(
        interpreter.evaluate_expr(&chars_of(":a"), &runner),
        Err(LogoError::UndefinedVariable)
    );
}

#[test]
fn the_token_at_the_cursor() {
    let mut runner = LogoRunner::new(10, 10);
    let mut interpreter = LogoInterpreter::default("PENDOWN\n  // x\nPENUP\n".to_string());
    assert_eq!(interpreter.next_token(), chars_of("PENDOWN"));
    assert_eq!(interpreter.interpret_expr(&mut runner), Ok(()));
    assert!(runner.is_pen_down());
    assert_eq!(interpreter.next_token(), chars_of(""));
    assert_eq!(interpreter.interpret_expr(&mut runner), Ok(()));
    assert_eq!(interpreter.interpret_expr(&mut runner), Ok(()));
    assert_eq!(interpreter.next_token(), chars_of("//"));
    assert_eq!(interpreter.collect_expr(Terminator::Newline), Ok(chars_of("// x\n")));
    assert_eq!(interpreter.interpret_expr(&mut runner), Ok(()));
    assert_eq!(interpreter.next_token(), chars_of("PENUP"));
    assert_eq!(interpreter.collect_expr(Terminator::Newline), Ok(chars_of("PENUP\n")));
    assert_eq!(interpreter.collect_expr(Terminator::End), Err(LogoError::UnterminatedStatement));
    assert_eq!(interpreter.collect_expr(Terminator::Bracket), Err(LogoError::UnterminatedStatement));
    assert_eq!(interpreter.interpret_expr(&mut runner), Ok(()));
    assert!(!runner.is_pen_down());
    assert_eq!(interpreter.next_token(), chars_of(""));
    assert_eq!(interpreter.interpret_expr(&mut runner), Ok(()));
    assert_eq!(interpreter.interpret(&mut runner), Ok(()));
}

#[test]
fn terminators_by_token() {
    for word in [
        "PENUP", "PENDOWN", "FORWARD", "BACK", "LEFT", "RIGHT", "SETX", "SETY", "SETPENCOLOR",
        "TURN", "SETHEADING", "MAKE", "END", "ADDASSIGN", "//", "SQUARE", "",
    ] {
        assert_eq!(LogoInterpreter::get_terminator(&chars_of(word)), Terminator::Newline);
    }
    assert_eq!(LogoInterpreter::get_terminator(&chars_of("TO")), Terminator::End);
    assert_eq!(LogoInterpreter::get_terminator(&chars_of("IF")), Terminator::Bracket);
    assert_eq!(LogoInterpreter::get_terminator(&chars_of("WHILE")), Terminator::Bracket);
}

#[test]
fn the_commands_of_the_turtle() {
    for word in [
        "PENUP", "PENDOWN", "FORWARD", "BACK", "LEFT", "RIGHT", "SETX", "SETY", "SETPENCOLOR",
        "TURN", "SETHEADING",
    ] {
        assert!(LogoInterpreter::is_builtin_fn(&chars_of(word)));
    }
    for word in ["MAKE", "ADDASSIGN", "IF", "WHILE", "TO", "END", "XCOR", "forward", "BACKWARD", ""] {
        assert!(!LogoInterpreter::is_builtin_fn(&chars_of(word)));
    }
}

#[test]
fn comparisons() {
    let interpreter = LogoInterpreter::default(String::new());
    let op = |l: &str, r: &str, o: &str| interpreter.logical_op(&chars_of(l), &chars_of(r), &chars_of(o));
    assert_eq!(op("TRUE", "TRUE", "EQ"), Ok(true));
    assert_eq!(op("TRUE", "FALSE", "EQ"), Ok(false));
    assert_eq!(op("FALSE", "TRUE", "NE"), Ok(true));
    assert_eq!(op("FALSE", "FALSE", "NE"), Ok(false));
    assert_eq!(op("TRUE", "FALSE", "GT"), Err(LogoError::InvalidOperator));
    assert_eq!(op("TRUE", "FALSE", "+"), Err(LogoError::InvalidOperator));
    assert_eq!(op("TRUE", "1", "EQ"), Err(LogoError::TypeMismatch));
    assert_eq!(op("x", "FALSE", "EQ"), Err(LogoError::TypeMismatch));
    assert_eq!(op("2", "10", "LT"), Ok(true));
    assert_eq!(op("2", "10", "GT"), Ok(false));
    assert_eq!(op("-2", "-10", "GT"), Ok(true));
    assert_eq!(op("2", "+2", "EQ"), Ok(true));
    assert_eq!(op("2", "3", "NE"), Ok(true));
    assert_eq!(op("2", "3", "LE"), Err(LogoError::InvalidOperator));
    assert_eq!(op("2", "x", "LT"), Err(LogoError::NotANumber));
    assert_eq!(op("true", "false", "EQ"), Err(LogoError::NotANumber));
}

#[test]
fn a_token_at_a_time() {
    let runner = LogoRunner::new(10, 10);
    let interpreter = LogoInterpreter::default(String::new());
    let mut stack: Vec<Vec<char>> = Vec::new();
    assert_eq!(interpreter.apply_token(&chars_of("\"4"), &mut stack, &runner), Ok(()));
    assert_eq!(interpreter.apply_token(&chars_of("\"10"), &mut stack, &runner), Ok(()));
    assert_eq!(strings(&stack), vec!["4", "10"]);
    assert_eq!(interpreter.apply_token(&chars_of("NOTHING"), &mut stack, &runner), Ok(()));
    assert_eq!(strings(&stack), vec!["4", "10"]);
    assert_eq!(interpreter.apply_token(&chars_of("-"), &mut stack, &runner), Ok(()));
    assert_eq!(strings(&stack), vec!["6"]);
    assert_eq!(interpreter.apply_token(&chars_of("XCOR"), &mut stack, &runner), Ok(()));
    assert_eq!(strings(&stack), vec!["6", "5"]);
    assert_eq!(interpreter.apply_token(&chars_of("GT"), &mut stack, &runner), Ok(()));
    assert_eq!(strings(&stack), vec!["FALSE"]);
    assert_eq!(
        interpreter.apply_token(&chars_of("*"), &mut stack, &runner),
        Err(LogoError::StackUnderflow)
    );
    assert_eq!(interpreter.apply_token(&chars_of("\""), &mut stack, &runner), Ok(()));
    assert_eq!(strings(&stack), vec!["FALSE", ""]);
}

#[test]
fn tokens_from_an_index_on() {
    let runner = LogoRunner::new(10, 10);
    let interpreter = LogoInterpreter::default(String::new());
    let tokens = vec![chars_of("+"), chars_of("\"a"), chars_of("\"b")];
    assert_eq!(
        interpreter.evaluate_tokens(&tokens, 0, &runner),
        Err(LogoError::NotANumber)
    );
    assert_eq!(
        interpreter.evaluate_tokens(&tokens, 1, &runner).map(|v| strings(&v)),
        Ok(vec!["a".to_string(), "b".to_string()])
    );
    assert_eq!(interpreter.evaluate_tokens(&tokens, 3, &runner), Ok(Vec::new()));
}

#[test]
fn conditions_are_one_boolean() {
    let runner = LogoRunner::new(10, 10);
    let interpreter = LogoInterpreter::default(String::new());
    let check = |c: &str| interpreter.check_condition(&chars_of(c), &runner);
    assert_eq!(check("\"TRUE"), Ok(true));
    assert_eq!(check("\"FALSE"), Ok(false));
    assert_eq!(check("LT XCOR \"6"), Ok(true));
    assert_eq!(check(""), Err(LogoError::InvalidCondition));
    assert_eq!(check("\"1"), Err(LogoError::InvalidCondition));
    assert_eq!(check("\"TRUE \"TRUE"), Err(LogoError::InvalidCondition));
    assert_eq!(check("EQ \"TRUE"), Err(LogoError::StackUnderflow));
}

#[test]
fn statements_one_by_one() {
    let mut runner = LogoRunner::new(10, 10);
    let mut interpreter = LogoInterpreter::default(String::new());
    assert_eq!(
        interpreter.evaluate_builtin_fn(&chars_of("SETY"), &chars_of(" + \"1 \"2\n"), &mut runner),
        Ok(())
    );
    assert_eq!((runner.get_pos_x(), runner.get_pos_y()), (5, 3));
    assert_eq!(
        interpreter.evaluate_builtin_fn(&chars_of("SETHEADING"), &chars_of(" \"90\n"), &mut runner),
        Ok(())
    );
    assert_eq!(
        interpreter.evaluate_builtin_fn(&chars_of("SETHEADING"), &chars_of(" \"90\n"), &mut runner),
        Ok(())
    );
    assert_eq!(runner.get_direction(), 180);
    assert_eq!(
        interpreter.evaluate_builtin_fn(&chars_of("MAKE"), &chars_of(" \"x\n"), &mut runner),
        Err(LogoError::UnknownCommand)
    );
    assert_eq!(interpreter.evaluate_make_statement(&chars_of(" \"v \"x\n"), &runner), Ok(()));
    assert_eq!(interpreter.evaluate_make_statement(&chars_of(" :v YCOR\n"), &runner), Ok(()));
    assert_eq!(values(&interpreter, &runner, ":v :x"), vec!["x", "3"]);
    assert_eq!(interpreter.evaluate_add_assign_statement(&chars_of(" :v \"-5\n"), &runner), Ok(()));
    assert_eq!(values(&interpreter, &runner, ":x"), vec!["-2"]);
    assert_eq!(
        interpreter
            .evaluate_procedure_definition(&chars_of(" UP \"by\nSETY - YCOR :by\nEND"), &runner),
        Ok(())
    );
    assert_eq!(
        interpreter.find_evaluate_procedure(&chars_of("UP"), &chars_of(" \"4\n"), &mut runner),
        Ok(())
    );
    assert_eq!(runner.get_pos_y(), -1);
    assert_eq!(
        interpreter.find_evaluate_procedure(&chars_of("DOWN"), &chars_of(" \"4\n"), &mut runner),
        Err(LogoError::UnknownProcedure)
    );
    assert_eq!(
        interpreter.evaluate_conditional_statement(
            &chars_of("IF"),
            &chars_of(" LT YCOR \"0 [\nUP \"1\n]"),
            &mut runner
        ),
        Ok(())
    );
    assert_eq!(runner.get_pos_y(), -2);
    assert_eq!(
        interpreter.evaluate_conditional_statement(
            &chars_of("WHILE"),
            &chars_of(" GT YCOR \"-5 [\nUP \"1\n]"),
            &mut runner
        ),
        Ok(())
    );
    assert_eq!(runner.get_pos_y(), -5);
    assert_eq!(
        interpreter.run_nested(chars_of("UP :n\n"), Table::new(), &mut runner),
        Err(LogoError::UndefinedVariable)
    );
    let mut args: Table<Vec<char>> = Table::new();
    args.insert(chars_of("n"), chars_of("5"));
    assert_eq!(interpreter.run_nested(chars_of("UP :n\n"), args, &mut runner), Ok(()));
    assert_eq!(runner.get_pos_y(), -10);
    assert_eq!(
        interpreter.repeat(&chars_of("\"TRUE"), &chars_of("UP \"-1\n"), &mut runner),
        Ok(())
    );
    assert_eq!(runner.get_pos_y(), 990);
}

#[test]
fn blocks_do_not_see_the_arguments_of_the_call() {
    let program = "TO F \"n\nIF EQ :n \"1 [\nFORWARD :n\n]\nEND\nF \"1\n";
    let mut runner = LogoRunner::new(10, 10);
    let mut interpreter = LogoInterpreter::default(program.to_string());
    assert_eq!(interpreter.interpret(&mut runner), Err(LogoError::UndefinedVariable));
}

#[test]
fn definitions_in_a_block_last() {
    let program = "IF \"TRUE [\nTO G \"n\nFORWARD :n\nEND\nMAKE \"made \"1\n]\nG :made\n";
    let mut runner = LogoRunner::new(10, 10);
    let mut interpreter = LogoInterpreter::default(program.to_string());
    assert_eq!(interpreter.interpret(&mut runner), Ok(()));
    assert_eq!(runner.get_pos_y(), 4);
}

#[test]
fn nesting_has_a_limit() {
    let mut program = String::new();
    for _ in 0..100 {
        program.push_str("IF \"TRUE [\n");
    }
    program.push_str("FORWARD \"1\n");
    for _ in 0..100 {
        program.push_str("]\n");
    }
    let mut runner = LogoRunner::new(10, 10);
    let mut interpreter = LogoInterpreter::default(program.clone());
    assert_eq!(interpreter.interpret(&mut runner), Ok(()));
    assert_eq!(runner.get_pos_y(), 4);
    let deeper = format!("IF \"TRUE [\n{}]\n", program);
    let mut interpreter = LogoInterpreter::default(deeper);
    assert_eq!(interpreter.interpret(&mut runner), Err(LogoError::NestingTooDeep));
    assert_eq!(runner.get_pos_y(), 4);
}
