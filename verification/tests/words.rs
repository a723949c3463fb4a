use easy_process::words::{can_split, setup_process, CommandLine};

fn split(cmd: &str) -> (String, Vec<String>) {
    assert!(can_split(cmd));
    let line = setup_process(cmd);
    (line.program, line.args)
}

fn strings(words: &[&str]) -> Vec<String> {
    words.iter().map(|word| word.to_string()).collect()
}

#[test]
fn first_word_is_the_program() {
    assert_eq!(split("ls"), ("ls".to_string(), strings(&[])));
    assert_eq!(split("ls -l /tmp"), ("ls".to_string(), strings(&["-l", "/tmp"])));
}

#[test]
fn double_quotes_keep_spaces_in_one_argument() {
    assert_eq!(
        split(r#"echo "a b" c"#),
        ("echo".to_string(), strings(&["a b", "c"]))
    );
}

#[test]
fn single_quotes_keep_double_quotes_and_spaces() {
    assert_eq!(
        split(r#"sh -c 'echo "1 2 3 4"'"#),
        ("sh".to_string(), strings(&["-c", r#"echo "1 2 3 4""#]))
    );
}

#[test]
fn backslash_escapes_a_space() {
    assert_eq!(
        split(r"Hello\ World 'Second Argument'"),
        ("Hello World".to_string(), strings(&["Second Argument"]))
    );
}

#[test]
fn backslash_escapes_quotes_inside_double_quotes() {
    assert_eq!(
        split(r#"say "double quoted (\")""#),
        ("say".to_string(), strings(&[r#"double quoted (")"#]))
    );
}

#[test]
fn escaped_letters_become_control_characters() {
    assert_eq!(
        split(r#"printf a\tb "c\nd""#),
        ("printf".to_string(), strings(&["a\tb", "c\nd"]))
    );
}

#[test]
fn runs_of_spaces_separate_once() {
    assert_eq!(split("a   b "), ("a".to_string(), strings(&["b"])));
}

#[test]
fn leading_space_gives_an_empty_program() {
    assert_eq!(split(" a"), ("".to_string(), strings(&["a"])));
}

#[test]
fn quoted_control_characters_are_kept() {
    assert_eq!(
        split("echo 'a\tb' \"c\nd\""),
        ("echo".to_string(), strings(&["a\tb", "c\nd"]))
    );
    assert_eq!(split("echo a\\\tb"), ("echo".to_string(), strings(&["a\tb"])));
}

#[test]
fn non_ascii_words_are_kept() {
    assert_eq!(
        split("echo grüße '日本 語' \\\\é"),
        ("echo".to_string(), strings(&["grüße", "日本 語", "\\é"]))
    );
}

#[test]
fn can_split_accepts_what_the_splitter_reads() {
    assert!(can_split("ls"));
    assert!(can_split(" "));
    assert!(can_split(r#"sh -c 'echo "1 2 3 4"'"#));
    assert!(can_split("echo 'a\tb'"));
    assert!(can_split("echo \"a\rb\""));
    assert!(can_split("echo a\\\nb"));
    assert!(can_split("echo é \\\\é"));
    assert!(can_split("echo 'open"));
    assert!(can_split("echo trailing\\"));
}

#[test]
fn can_split_refuses_the_empty_line() {
    assert!(!can_split(""));
}

#[test]
fn can_split_refuses_bare_control_characters() {
    assert!(!can_split("a\tb"));
    assert!(!can_split("a\nb"));
    assert!(!can_split("a\rb"));
    assert!(!can_split("\t"));
    assert!(!can_split("echo 'a' \n"));
    assert!(!can_split("echo \\\\\tb"));
}

#[test]
fn can_split_refuses_escaped_characters_outside_ascii() {
    assert!(!can_split("echo \\é"));
    assert!(!can_split("echo 'a\\é'"));
    assert!(!can_split("echo \"a\\é\""));
    assert!(!can_split("echo \\\\\\é"));
}

#[test]
fn from_words_takes_the_first_word_as_program() {
    let line = CommandLine::from_words(strings(&["echo", "a b", ""]));
    assert_eq!(line.program, "echo");
    assert_eq!(line.args, strings(&["a b", ""]));
    let line = CommandLine::from_words(strings(&["true"]));
    assert_eq!(line.program, "true");
    assert!(line.args.is_empty());
}
