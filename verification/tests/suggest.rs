use sala::config::default_config;
use sala::effect::Wiring;
use sala::suggest::{generate_suggestions, generator_command, suggestions};

fn with_generator(line: &str) -> sala::config::Config {
    let mut config = default_config();
    config.password_generator = Some(line.to_string());
    config
}

#[test]
fn generate_suggestions_splits_like_a_shell() {
    let launch = generate_suggestions(&with_generator("pwgen -s 'two words' \"x y\" a\\ b # rest")).unwrap();
    assert_eq!(launch.program, "pwgen");
    assert_eq!(launch.args, vec!["-s", "two words", "x y", "a b"]);
    assert_eq!(launch.dir, None);
    assert_eq!(launch.stdin, Wiring::Null);
    assert_eq!(launch.stdout, Wiring::Piped);
    assert_eq!(launch.stderr, Wiring::Piped);
}

#[test]
fn generate_suggestions_gives_nothing_without_a_command() {
    assert!(generate_suggestions(&default_config()).is_none());
    assert!(generate_suggestions(&with_generator("")).is_none());
    assert!(generate_suggestions(&with_generator("  \t ")).is_none());
    assert!(generate_suggestions(&with_generator("# only a comment")).is_none());
    assert!(generate_suggestions(&with_generator("pwgen 'never closed")).is_none());
    assert!(generate_suggestions(&with_generator("pwgen \"never closed")).is_none());
}

#[test]
fn generate_suggestions_takes_an_empty_word_as_program() {
    let launch = generate_suggestions(&with_generator("'' x")).unwrap();
    assert_eq!(launch.program, "");
    assert_eq!(launch.args, vec!["x"]);
}

#[test]
fn generator_command_takes_the_first_word_as_program() {
    assert!(generator_command(None).is_none());
    assert!(generator_command(Some(Vec::new())).is_none());
    let launch = generator_command(Some(vec!["only".to_string()])).unwrap();
    assert_eq!(launch.program, "only");
    assert_eq!(launch.args, Vec::<String>::new());
    let launch =
        generator_command(Some(vec!["a".to_string(), "b".to_string(), "c".to_string()])).unwrap();
    assert_eq!(launch.program, "a");
    assert_eq!(launch.args, vec!["b", "c"]);
}

#[test]
fn suggestions_are_the_words_of_the_output() {
    assert_eq!(suggestions(b"one two\nthree\n".to_vec()), Some(vec![
        "one".to_string(),
        "two".to_string(),
        "three".to_string()
    ]));
    assert_eq!(suggestions("pässwörd".as_bytes().to_vec()), Some(vec!["pässwörd".to_string()]));
    assert_eq!(suggestions(Vec::new()), None);
    assert_eq!(suggestions(b" \n\t ".to_vec()), None);
    assert_eq!(suggestions(vec![b'o', b'k', b' ', 0xff]), None);
    assert_eq!(suggestions(vec![0xc3]), None);
}
