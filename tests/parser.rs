use c1_parser::parser::C1Parser;

fn err(text: &str) -> String {
    match C1Parser::parse(text) {
        Ok(()) => panic!("accepted: {}", text),
        Err(m) => m,
    }
}

#[test]
fn parse_empty_program() {
    assert_eq!(C1Parser::parse(""), Ok(()));
    assert_eq!(C1Parser::parse("   "), Ok(()));
    assert_eq!(C1Parser::parse("// This is a valid comment!"), Ok(()));
    assert_eq!(C1Parser::parse("/* This is a valid comment!\nIn two lines!*/\n"), Ok(()));
    assert_eq!(C1Parser::parse("  \n "), Ok(()));
}

#[test]
fn fail_invalid_program() {
    assert!(C1Parser::parse("  bool  ").is_err());
    assert!(C1Parser::parse("x = 0;").is_err());
    assert!(C1Parser::parse("// A valid comment\nInvalid line.").is_err());
}

#[test]
fn valid_function() {
    assert!(C1Parser::parse("  void foo() {}  ").is_ok());
    assert!(C1Parser::parse("int bar() {return 0;}").is_ok());
    assert!(C1Parser::parse(
        "float calc() {\n\
         x = 1.0;
         y = 2.2;
         return x + y;
         \n\
         }",
    )
    .is_ok());
}

#[test]
fn fail_invalid_function() {
    assert!(C1Parser::parse("  void foo()) {}  ").is_err());
    assert!(C1Parser::parse("const bar() {return 0;}").is_err());
    assert!(C1Parser::parse(
        "int bar() {
             return 0;
         int foo() {}",
    )
    .is_err());
    assert!(C1Parser::parse(
        "float calc(int invalid) {\n\
         x = 1.0;
         y = 2.2;
         return x + y;
         \n\
         }",
    )
    .is_err());
}

#[test]
fn single_line_function_in_float() {
    assert_eq!(C1Parser::parse("float calc() { x = 1.0; y = 2.2; return x + y; }"), Ok(()));
}

#[test]
fn valid_function_call() {
    assert!(C1Parser::parse("void f() { foo(); }").is_ok());
    assert!(C1Parser::parse("void f() { foo( ); }").is_ok());
    assert!(C1Parser::parse("void f() { bar23( ); }").is_ok());
}

#[test]
fn fail_invalid_function_call() {
    assert!(C1Parser::parse("void f() { foo); }").is_err());
    assert!(C1Parser::parse("void f() { foo{ ); }").is_err());
    assert!(C1Parser::parse("void f() { bar _foo( ); }").is_err());
}

#[test]
fn valid_statement_list() {
    assert!(C1Parser::parse("void f() { x = 4; }").is_ok());
    assert!(C1Parser::parse("void f() { x = 4;\ny = 2.1; }").is_ok());
    assert!(C1Parser::parse("void f() { x = 4;\n{\nfoo();\n} }").is_ok());
    assert!(C1Parser::parse("void f() { {x = 4;}\ny = 1;\nfoo();\n{} }").is_ok());
}

#[test]
fn fail_invalid_statement_list() {
    assert!(C1Parser::parse("void f() { x = 4\ny = 2.1; }").is_err());
    assert!(C1Parser::parse("void f() { x = 4;\n{\nfoo(); }").is_err());
    assert!(C1Parser::parse("void f() { {x = 4;\ny = 1;\nfoo;\n{} }").is_err());
}

#[test]
fn valid_if_statement() {
    assert!(C1Parser::parse("void f() { if(x == 1) {} }").is_ok());
    assert!(C1Parser::parse("void f() { if(x == y) {} }").is_ok());
    assert!(C1Parser::parse("void f() { if(z) {} }").is_ok());
    assert!(C1Parser::parse("void f() { if(true) {} }").is_ok());
    assert!(C1Parser::parse("void f() { if(false) {} }").is_ok());
    assert!(C1Parser::parse("void f() { if(false) x = 1; }").is_ok());
}

#[test]
fn fail_invalid_if_statement() {
    assert!(C1Parser::parse("void f() { if(x == ) {} }").is_err());
    assert!(C1Parser::parse("void f() { if( == y) {} }").is_err());
    assert!(C1Parser::parse("void f() { if(> z) {} }").is_err());
    assert!(C1Parser::parse("void f() { if( {} }").is_err());
    assert!(C1Parser::parse("void f() { if(false) } }").is_err());
}

#[test]
fn valid_return_statement() {
    assert!(C1Parser::parse("int f() { return x; }").is_ok());
    assert!(C1Parser::parse("int f() { return 1; }").is_ok());
    assert!(C1Parser::parse("void f() { return; }").is_ok());
    assert!(C1Parser::parse("float f() { return .5; }").is_ok());
}

#[test]
fn fail_invalid_return_statement() {
    assert!(C1Parser::parse("int f() { 1; }").is_err());
}

#[test]
fn return_value_needs_simple_start() {
    assert_eq!(err("int f() { return (x); }"), "expected ';' at line 1 with text: '('");
    assert_eq!(err("int f() { return -1; }"), "expected ';' at line 1 with text: '-'");
}

#[test]
fn valid_printf_statement() {
    assert!(C1Parser::parse("void f() { printf(a+b); }").is_ok());
    assert!(C1Parser::parse("void f() { printf( 1); }").is_ok());
    assert!(C1Parser::parse("void f() { printf(a - c); }").is_ok());
}

#[test]
fn fail_invalid_printf_statement() {
    assert!(C1Parser::parse("void f() { printf( ; }").is_err());
    assert!(C1Parser::parse("void f() { printf(printf); }").is_err());
    assert!(C1Parser::parse("void f() { Printf(); }").is_ok());
    assert!(C1Parser::parse("void f() { Printf(1); }").is_err());
}

#[test]
fn valid_return_type() {
    assert!(C1Parser::parse("void f() {}").is_ok());
    assert!(C1Parser::parse("bool f() {}").is_ok());
    assert!(C1Parser::parse("int f() {}").is_ok());
    assert!(C1Parser::parse("float f() {}").is_ok());
}

#[test]
fn valid_assignment() {
    assert!(C1Parser::parse("void f() { if (x = y) {} }").is_ok());
    assert!(C1Parser::parse("void f() { if (x =y) {} }").is_ok());
    assert!(C1Parser::parse("void f() { if (1 + 2) {} }").is_ok());
    assert!(C1Parser::parse("void f() { printf(x = y = z * 2); }").is_ok());
}

#[test]
fn assignment_falls_through_to_relation() {
    assert!(C1Parser::parse("void f() { printf(x == y); }").is_ok());
    assert!(C1Parser::parse("void f() { printf(1 + 2); }").is_ok());
    assert_eq!(err("void f() { printf(x == y == z); }"), "expected ')' at line 1 with text: '=='");
}

#[test]
fn valid_stat_assignment() {
    assert!(C1Parser::parse("void f() { x = y; }").is_ok());
    assert!(C1Parser::parse("void f() { x =y; }").is_ok());
    assert!(C1Parser::parse("void f() { x =y + t; }").is_ok());
}

#[test]
fn valid_factor() {
    assert!(C1Parser::parse("void f() { x = 4; }").is_ok());
    assert!(C1Parser::parse("void f() { x = 1.2; }").is_ok());
    assert!(C1Parser::parse("void f() { x = true; }").is_ok());
    assert!(C1Parser::parse("void f() { x = foo(); }").is_ok());
    assert!(C1Parser::parse("void f() { x = y; }").is_ok());
    assert!(C1Parser::parse("void f() { x = (x + y); }").is_ok());
    assert!(C1Parser::parse("void f() { x = -a * (b - c) / d && e || g; }").is_ok());
}

#[test]
fn fail_invalid_factor() {
    assert_eq!(err("void f() { x = if; }"), "expected an operand at line 1 with text: 'if'");
    assert_eq!(err("void f() { x = (4; }"), "expected ')' at line 1 with text: ';'");
    assert_eq!(err("void f() { x = bool; }"), "expected an operand at line 1 with text: 'bool'");
}

#[test]
fn multiple_functions() {
    assert!(C1Parser::parse("void main() { hello();}\nfloat bar() {return 1.0;}").is_ok());
}

#[test]
fn malformed_type_is_rejected() {
    assert_eq!(err("const bar() {return 0;}"), "expected a type at line 1 with text: 'const'");
}

#[test]
fn missing_semicolon_names_next_token() {
    assert_eq!(err("int bar() { x = 4 y = 2; }"), "expected ';' at line 1 with text: 'y'");
}

#[test]
fn unterminated_block_reaches_eof() {
    assert_eq!(err("int bar() { return 0;"), "expected '}'. Reached EOF");
    assert_eq!(err("void f() { if (x)"), "expected a statement. Reached EOF");
    assert_eq!(err("void f("), "expected ')'. Reached EOF");
}

#[test]
fn failure_is_reproducible() {
    let text = "int f() {\n  x = 1;\n  y = ;\n}";
    let first = C1Parser::parse(text);
    let second = C1Parser::parse(text);
    assert_eq!(first, second);
    assert_eq!(first, Err(String::from("expected an operand at line 3 with text: ';'")));
}

#[test]
fn multiplication_binds_without_parentheses() {
    assert_eq!(C1Parser::parse("int f() { return a + b * c; }"), Ok(()));
    assert_eq!(C1Parser::parse("int f() { return a * b + c < d - e; }"), Ok(()));
}

#[test]
fn statement_start_is_checked() {
    assert_eq!(err("void f() { if (x) } }"), "expected a statement at line 1 with text: '}'");
}

#[test]
fn unknown_characters_stop_recognition() {
    assert_eq!(err("int f() { x = 1 # 2; }"), "expected ';' at line 1 with text: '#'");
    assert_eq!(err("int f() { x = a & b; }"), "expected ';' at line 1 with text: '&'");
    assert_eq!(err("/* never closed"), "expected a type at line 1 with text: '/* never closed'");
}

#[test]
fn line_numbers_count_breaks_and_comments() {
    let text = "\n\n\n\n\n\n\n\n\n\n\n\nx";
    assert_eq!(err(text), "expected a type at line 13 with text: 'x'");
    let text = "/* one\ntwo\nthree */ void f() {\n// note\n return 1 }";
    assert_eq!(err(text), "expected ';' at line 5 with text: '}'");
}

#[test]
fn keywords_need_whole_words() {
    assert_eq!(err("integer f() {}"), "expected a type at line 1 with text: 'integer'");
    assert!(C1Parser::parse("int f() { returned = iffy; }").is_ok());
}

#[test]
fn two_character_operators() {
    assert!(C1Parser::parse("bool f() { return a <= b; }").is_ok());
    assert!(C1Parser::parse("bool f() { return a >= b; }").is_ok());
    assert!(C1Parser::parse("bool f() { return a != b; }").is_ok());
    assert!(C1Parser::parse("bool f() { return a > b; }").is_ok());
    assert_eq!(err("bool f() { return a ! b; }"), "expected ';' at line 1 with text: '!'");
}
