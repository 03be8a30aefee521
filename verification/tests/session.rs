use lalrpop_util::ParseError;
use valley::ast::{Op, AST};
use valley::repl::{Parsed, Reply, Session};

fn print(line: &str) -> Reply {
    Reply::Print(line.to_string())
}

fn sum(a: i32, b: i32) -> AST {
    AST::BinOp(Box::new(AST::Value(a)), Op::Plus, Box::new(AST::Value(b)))
}

#[test]
fn a_new_session_prompts_for_a_statement() {
    let session = Session::new();
    assert_eq!(session.prompt(), "> ");
    assert_eq!(session.input(), "");
}

#[test]
fn lines_accumulate_while_the_statement_is_incomplete() {
    let mut session = Session::new();
    session.read_line("1 +\n");
    assert_eq!(session.input(), "1 +\n");
    assert_eq!(session.settle(Parsed::Incomplete), Reply::Continue);
    assert_eq!(session.prompt(), "  ");
    session.read_line("2\n");
    assert_eq!(session.input(), "1 +\n2\n");
    assert_eq!(session.settle(Parsed::Tree(sum(1, 2))), print("3"));
    assert_eq!(session.input(), "");
    assert_eq!(session.prompt(), "> ");
}

#[test]
fn a_value_is_printed_in_decimal() {
    let mut session = Session::new();
    session.read_line("0 - 12\n");
    let tree = AST::BinOp(Box::new(AST::Value(0)), Op::Minus, Box::new(AST::Value(12)));
    assert_eq!(session.settle(Parsed::Tree(tree)), print("-12"));
}

#[test]
fn a_rejected_statement_is_reported_and_dropped() {
    let mut session = Session::new();
    session.read_line("1 + )\n");
    assert_eq!(
        session.settle(Parsed::Rejected("Unrecognized token `)`".to_string())),
        print("Error: Unrecognized token `)`")
    );
    assert_eq!(session.input(), "");
    assert_eq!(session.prompt(), "> ");
}

#[test]
fn variables_live_as_long_as_the_session() {
    let mut session = Session::new();
    session.read_line("x := 4\n");
    let assign =
        AST::BinOp(Box::new(AST::ID("x".to_string())), Op::Assign, Box::new(AST::Value(4)));
    assert_eq!(session.settle(Parsed::Tree(assign)), print("0"));
    session.read_line("x\n");
    assert_eq!(session.settle(Parsed::Rejected("no".to_string())), print("Error: no"));
    session.read_line("x\n");
    assert_eq!(session.settle(Parsed::Incomplete), Reply::Continue);
    assert_eq!(session.settle(Parsed::Tree(AST::ID("x".to_string()))), print("4"));
}

#[test]
fn an_evaluation_that_breaks_off_is_a_fault() {
    let mut session = Session::new();
    session.read_line("1 / 0\n");
    let tree = AST::BinOp(Box::new(AST::Value(1)), Op::DivBy, Box::new(AST::Value(0)));
    assert_eq!(session.settle(Parsed::Tree(tree)), Reply::Fault);
    assert_eq!(session.input(), "");
    assert_eq!(session.settle(Parsed::Tree(sum(i32::MAX, 1))), Reply::Fault);
}

#[test]
fn a_blank_line_is_input_too() {
    let mut session = Session::new();
    session.read_line("\n");
    assert_eq!(session.prompt(), "  ");
    session.read_line("");
    assert_eq!(session.input(), "\n");
}

fn parse_error(error: ParseError<usize, String, String>) -> Result<AST, ParseError<usize, String, String>> {
    Err(error)
}

#[test]
fn a_parsed_tree_is_evaluated() {
    let mut session = Session::new();
    session.read_line("1 + 2\n");
    let parsed: Result<AST, ParseError<usize, String, String>> = Ok(sum(1, 2));
    assert_eq!(session.settle_parse(parsed), print("3"));
    assert_eq!(session.input(), "");
}

#[test]
fn an_early_end_of_input_keeps_the_input_pending() {
    let mut session = Session::new();
    session.read_line("1 +\n");
    let error = ParseError::UnrecognizedEof { location: 4, expected: vec!["\"(\"".to_string()] };
    assert_eq!(session.settle_parse(parse_error(error)), Reply::Continue);
    assert_eq!(session.input(), "1 +\n");
    assert_eq!(session.prompt(), "  ");
}

#[test]
fn any_other_parse_error_is_printed_and_drops_the_input() {
    let mut session = Session::new();
    session.read_line("1 + )\n");
    let error = ParseError::UnrecognizedToken {
        token: (4, ")".to_string(), 5),
        expected: vec!["\"(\"".to_string(), "Num".to_string()],
    };
    assert_eq!(
        session.settle_parse(parse_error(error)),
        print("Error: Unrecognized token `)` found at 4:5\nExpected one of \"(\" or Num")
    );
    assert_eq!(session.input(), "");

    session.read_line("$\n");
    let error = ParseError::InvalidToken { location: 0 };
    assert_eq!(session.settle_parse(parse_error(error)), print("Error: Invalid token at 0"));

    session.read_line("1 2\n");
    let error = ParseError::ExtraToken { token: (2, "2".to_string(), 3) };
    assert_eq!(
        session.settle_parse(parse_error(error)),
        print("Error: Extra token 2 found at 2:3")
    );

    session.read_line("x\n");
    let error = ParseError::User { error: "no such thing".to_string() };
    assert_eq!(session.settle_parse(parse_error(error)), print("Error: no such thing"));
    assert_eq!(session.prompt(), "> ");
}
