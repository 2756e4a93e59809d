use command_executor::errors::CommandExecutorError;
use command_executor::execution::plan_command;
use command_executor::parser::parse;

fn words(input: &str) -> Vec<String> {
    parse(input).expect("input should split into words")
}

#[test]
fn splits_simple_words() {
    assert_eq!(words("echo hello world"), vec!["echo", "hello", "world"]);
}

#[test]
fn single_quotes_keep_spaces() {
    assert_eq!(words("echo 'a b' c"), vec!["echo", "a b", "c"]);
}

#[test]
fn double_quotes_keep_spaces() {
    assert_eq!(words("echo \"a b\" c"), vec!["echo", "a b", "c"]);
}

#[test]
fn quotes_join_within_a_word() {
    assert_eq!(words("a'b c'd"), vec!["ab cd"]);
    assert_eq!(words("a\"b\"c"), vec!["abc"]);
}

#[test]
fn empty_quotes_make_an_empty_word() {
    assert_eq!(words("a '' b"), vec!["a", "", "b"]);
    assert_eq!(words("\"\""), vec![""]);
}

#[test]
fn backslash_escapes_outside_quotes() {
    assert_eq!(words("a\\ b"), vec!["a b"]);
    assert_eq!(words("\\'"), vec!["'"]);
    assert_eq!(words("\\\""), vec!["\""]);
    assert_eq!(words("a\\\nb"), vec!["ab"]);
}

#[test]
fn single_quotes_are_literal_inside() {
    assert_eq!(words("'a\\b'"), vec!["a\\b"]);
    assert_eq!(words("'a\"b'"), vec!["a\"b"]);
    assert_eq!(words("'a#b'"), vec!["a#b"]);
}

#[test]
fn double_quote_escape_rules() {
    // backslash escapes the dollar, backquote, quote and backslash
    assert_eq!(words("\"\\$\""), vec!["$"]);
    assert_eq!(words("\"\\`\""), vec!["`"]);
    assert_eq!(words("\"\\\"\""), vec!["\""]);
    assert_eq!(words("\"\\\\\""), vec!["\\"]);
    // before a line break it is a continuation
    assert_eq!(words("\"a\\\nb\""), vec!["ab"]);
    // before anything else the backslash stays
    assert_eq!(words("\"\\x\""), vec!["\\x"]);
    assert_eq!(words("\"a'b\""), vec!["a'b"]);
}

#[test]
fn comments_run_to_the_end_of_the_line() {
    assert_eq!(words("a #b"), vec!["a"]);
    assert_eq!(words("a #b\nc"), vec!["a", "c"]);
    assert_eq!(words("#only a comment"), Vec::<String>::new());
    // a hash inside a word is literal
    assert_eq!(words("a#b"), vec!["a#b"]);
}

#[test]
fn tabs_and_newlines_separate_words() {
    assert_eq!(words("a\tb\nc"), vec!["a", "b", "c"]);
    assert_eq!(words("  a   b  "), vec!["a", "b"]);
}

#[test]
fn non_ascii_text_passes_through() {
    assert_eq!(words("echo 'héllo wörld' ß"), vec!["echo", "héllo wörld", "ß"]);
}

#[test]
fn unterminated_single_quote_is_a_parse_failure() {
    let err = parse("echo 'a").unwrap_err();
    assert!(matches!(err, CommandExecutorError::ParseError(ref raw) if raw == "echo 'a"));
}

#[test]
fn unterminated_double_quote_is_a_parse_failure() {
    let err = parse("echo \"a").unwrap_err();
    assert!(matches!(err, CommandExecutorError::ParseError(_)));
    // an escaped closing quote does not terminate
    assert!(parse("echo \"a\\\"").is_err());
}

#[test]
fn trailing_backslash_is_a_parse_failure() {
    assert!(matches!(parse("echo a\\"), Err(CommandExecutorError::ParseError(_))));
    assert!(matches!(parse("\\"), Err(CommandExecutorError::ParseError(_))));
}

#[test]
fn escaped_line_break_alone_is_one_empty_word() {
    assert_eq!(words("\\\n"), vec![""]);
}

#[test]
fn agrees_with_the_reference_splitter() {
    let inputs = [
        "",
        "   ",
        "a",
        "echo hello world",
        "echo 'a b' c",
        "echo \"a b\" c",
        "a'b c'd",
        "a\"b\"c",
        "a '' b",
        "a\\ b",
        "a\\\nb",
        "'a\\b'",
        "\"\\$\" \"\\`\" \"\\\"\" \"\\\\\" \"\\x\"",
        "\"a\\\nb\"",
        "a #b\nc",
        "#comment",
        "a#b",
        "''#x",
        "a\tb\nc",
        "ls -la / | grep foo",
        "echo 'héllo wörld' ß",
        "echo 'a",
        "echo \"a",
        "echo a\\",
        "\\",
        "\\\n",
        "python3 -c 'print(\"hi\")'",
        "env FOO='bar baz' cmd",
    ];
    for input in inputs {
        let ours = parse(input).ok();
        let reference = shlex::split(input);
        assert_eq!(ours, reference, "splitting {:?}", input);
    }
}

#[test]
fn agrees_with_the_reference_splitter_on_generated_inputs() {
    // a fixed linear-congruential sequence drives the generation, so
    // the inputs are the same on every run
    let alphabet = ['a', 'b', ' ', '\t', '\n', '\'', '"', '\\', '#', '$', '`', 'x', 'é'];
    let mut state: u64 = 0x2545F4914F6CDD1D;
    let mut next = move || {
        state = state.wrapping_mul(6364136223846793005).wrapping_add(1442695040888963407);
        (state >> 33) as usize
    };
    for _ in 0..5000 {
        let len = next() % 12;
        let input: String = (0..len).map(|_| alphabet[next() % alphabet.len()]).collect();
        let ours = parse(&input).ok();
        let reference = shlex::split(&input);
        assert_eq!(ours, reference, "splitting {:?}", input);
    }
}

#[test]
fn whitespace_only_input_is_an_empty_command() {
    let err = plan_command("   \t  \n ").unwrap_err();
    assert!(matches!(err, CommandExecutorError::EmptyCommandError));
    let err = plan_command("").unwrap_err();
    assert!(matches!(err, CommandExecutorError::EmptyCommandError));
}

#[test]
fn plan_names_program_and_arguments() {
    let plan = plan_command("grep -r 'a b' .").unwrap();
    assert_eq!(plan.program, "grep");
    assert_eq!(plan.args, vec!["-r", "a b", "."]);
}

#[test]
fn plan_of_one_word_has_no_arguments() {
    let plan = plan_command("ls").unwrap();
    assert_eq!(plan.program, "ls");
    assert!(plan.args.is_empty());
}

#[test]
fn plan_keeps_parse_failures() {
    assert!(matches!(plan_command("echo 'a"), Err(CommandExecutorError::ParseError(_))));
}
