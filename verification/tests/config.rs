use sala::config::{
    default_config, empty_config, load, parse_layer, Config, ConfigFromFile, Fault, Load,
};
use sala::effect::{Reply, Request, Step};
use std::io;

fn path_of(request: Request) -> String {
    match request {
        Request::ReadFile(path) => path,
        other => panic!("not a reading: {:?}", other),
    }
}

fn pending(step: Step<Load, Result<Config, sala::config::Error>>) -> Load {
    match step {
        Step::Pending(load) => load,
        Step::Finished(result) => panic!("over: {:?}", result),
    }
}

fn finished(step: Step<Load, Result<Config, sala::config::Error>>) -> Result<Config, sala::config::Error> {
    match step {
        Step::Pending(load) => panic!("not over: {:?}", load),
        Step::Finished(result) => result,
    }
}

fn missing() -> Reply {
    Reply::Failed(io::Error::from_raw_os_error(2))
}

#[test]
fn default_config_has_the_builtin_values() {
    let config = default_config();
    assert_eq!(config.cipher, "AES-128");
    assert_eq!(config.key_length, 64);
    assert_eq!(config.password_generator, None);
}

#[test]
fn merge_overrides_leaf_by_leaf() {
    let merged = default_config().merge(empty_config());
    assert_eq!(merged.cipher, "AES-128");
    assert_eq!(merged.key_length, 64);
    assert_eq!(merged.password_generator, None);

    let merged = default_config().merge(ConfigFromFile {
        cipher: None,
        key_length: Some(32),
        password_generator: Some("pwgen".to_string()),
    });
    assert_eq!(merged.cipher, "AES-128");
    assert_eq!(merged.key_length, 32);
    assert_eq!(merged.password_generator, Some("pwgen".to_string()));

    let merged = merged.merge(ConfigFromFile {
        cipher: Some("AES-256".to_string()),
        key_length: None,
        password_generator: None,
    });
    assert_eq!(merged.cipher, "AES-256");
    assert_eq!(merged.key_length, 32);
    assert_eq!(merged.password_generator, Some("pwgen".to_string()));
}

#[test]
fn parse_layer_reads_the_three_keys() {
    let layer = parse_layer(
        b"cipher = \"TWOFISH\"\nkey-length = 128\npassword-generator = \"pwgen -s 16 5\"\n",
    )
    .unwrap();
    assert_eq!(layer.cipher, Some("TWOFISH".to_string()));
    assert_eq!(layer.key_length, Some(128));
    assert_eq!(layer.password_generator, Some("pwgen -s 16 5".to_string()));

    let layer = parse_layer(b"").unwrap();
    assert_eq!(layer.cipher, None);
    assert_eq!(layer.key_length, None);
    assert_eq!(layer.password_generator, None);

    let layer = parse_layer(b"# nothing but a comment\nkey-length = 1\n").unwrap();
    assert_eq!(layer.cipher, None);
    assert_eq!(layer.key_length, Some(1));
}

#[test]
fn parse_layer_refuses_unknown_keys() {
    match parse_layer(b"cipher = \"AES-128\"\ncolour = \"red\"\n") {
        Err(Fault::UnknownKey(key)) => assert_eq!(key, "colour"),
        other => panic!("{:?}", other),
    }
    match parse_layer(b"key_length = 64\n") {
        Err(Fault::UnknownKey(key)) => assert_eq!(key, "key_length"),
        other => panic!("{:?}", other),
    }
    match parse_layer(b"[section]\ncipher = \"AES-128\"\n") {
        Err(Fault::UnknownKey(key)) => assert_eq!(key, "section"),
        other => panic!("{:?}", other),
    }
}

#[test]
fn parse_layer_refuses_values_of_the_wrong_kind() {
    for (text, key) in [
        ("cipher = 5\n", "cipher"),
        ("cipher = true\n", "cipher"),
        ("key-length = \"64\"\n", "key-length"),
        ("key-length = 64.0\n", "key-length"),
        ("key-length = 0\n", "key-length"),
        ("key-length = -1\n", "key-length"),
        ("password-generator = [\"pwgen\"]\n", "password-generator"),
        ("[cipher]\nname = \"AES\"\n", "cipher"),
    ] {
        match parse_layer(text.as_bytes()) {
            Err(Fault::Mistyped(found)) => assert_eq!(found, key),
            other => panic!("{}: {:?}", text, other),
        }
    }
}

#[test]
fn parse_layer_refuses_what_is_no_toml() {
    for bytes in [
        &b"cipher = "[..],
        &b"cipher"[..],
        &b"key-length = 99999999999999999999999\n"[..],
        &[b'c', b' ', b'=', b' ', b'"', 0xff, b'"'][..],
    ] {
        match parse_layer(bytes) {
            Err(Fault::Syntax(message)) => assert_eq!(message.is_empty(), false),
            other => panic!("{:?}", other),
        }
    }
}

#[test]
fn parse_layer_keeps_the_last_of_a_key_set_twice() {
    let layer = parse_layer(b"cipher = \"a\"\nkey-length = 3\ncipher = \"b\"\n").unwrap();
    assert_eq!(layer.cipher, Some("b".to_string()));
    assert_eq!(layer.key_length, Some(3));
}

#[test]
fn load_lays_the_files_over_each_other() {
    let state = load("/repo");
    assert!(matches!(state.request(), Request::HomeDir));
    let state = pending(state.resume(Reply::Directory(Some("/home/u".to_string()))));
    assert_eq!(path_of(state.request()), "/home/u/.sala.toml");
    let state = pending(state.resume(Reply::Contents(
        b"cipher = \"HOME\"\nkey-length = 1\npassword-generator = \"home\"\n".to_vec(),
    )));
    assert!(matches!(state.request(), Request::ConfigDir));
    let state = pending(state.resume(Reply::Directory(Some("/home/u/.config".to_string()))));
    assert_eq!(path_of(state.request()), "/home/u/.config/sala.toml");
    let state = pending(state.resume(Reply::Contents(b"cipher = \"XDG\"\nkey-length = 2\n".to_vec())));
    assert_eq!(path_of(state.request()), "/repo/.sala/config");
    let config = finished(state.resume(Reply::Contents(b"cipher = \"REPO\"\n".to_vec()))).unwrap();
    assert_eq!(config.cipher, "REPO");
    assert_eq!(config.key_length, 2);
    assert_eq!(config.password_generator, Some("home".to_string()));
}

#[test]
fn load_takes_missing_files_and_directories_as_empty() {
    let state = load("/repo");
    let state = pending(state.resume(Reply::Directory(None)));
    assert!(matches!(state.request(), Request::ConfigDir));
    let state = pending(state.resume(Reply::Directory(None)));
    assert_eq!(path_of(state.request()), "/repo/.sala/config");
    let config = finished(state.resume(missing())).unwrap();
    assert_eq!(config.cipher, "AES-128");
    assert_eq!(config.key_length, 64);
    assert_eq!(config.password_generator, None);

    let state = load("/repo");
    let state = pending(state.resume(Reply::Directory(Some("/h".to_string()))));
    let state = pending(state.resume(missing()));
    let state = pending(state.resume(Reply::Directory(Some("/c".to_string()))));
    let state = pending(state.resume(missing()));
    let config = finished(state.resume(Reply::Contents(b"key-length = 8".to_vec()))).unwrap();
    assert_eq!(config.key_length, 8);
}

#[test]
fn load_names_the_file_that_is_at_fault() {
    let state = load("/repo");
    let state = pending(state.resume(Reply::Directory(Some("/h".to_string()))));
    let error = finished(state.resume(Reply::Contents(b"nope = 1".to_vec()))).unwrap_err();
    assert_eq!(error.path, "/h/.sala.toml");
    assert!(matches!(error.error, Fault::UnknownKey(_)));

    let state = load("/repo");
    let state = pending(state.resume(Reply::Directory(None)));
    let state = pending(state.resume(Reply::Directory(Some("/c".to_string()))));
    let error = finished(state.resume(Reply::Contents(b"= =".to_vec()))).unwrap_err();
    assert_eq!(error.path, "/c/sala.toml");
    assert!(matches!(error.error, Fault::Syntax(_)));

    let state = load("/repo");
    let state = pending(state.resume(Reply::Directory(None)));
    let state = pending(state.resume(Reply::Directory(None)));
    let error = finished(state.resume(Reply::Contents(b"cipher = 1".to_vec()))).unwrap_err();
    assert_eq!(error.path, "/repo/.sala/config");
    assert!(matches!(error.error, Fault::Mistyped(_)));
}

#[test]
fn load_disregards_a_reply_of_another_kind() {
    let state = load("/repo");
    let state = pending(state.resume(Reply::Done));
    assert!(matches!(state.request(), Request::HomeDir));
    let state = pending(state.resume(Reply::Directory(Some("/h".to_string()))));
    let state = pending(state.resume(Reply::Flag(true)));
    assert_eq!(path_of(state.request()), "/h/.sala.toml");
}

#[test]
fn parse_layer_refuses_contents_nested_too_deeply() {
    let deep: Vec<u8> = std::iter::repeat(b'[').take(100_000).collect();
    match parse_layer(&deep) {
        Err(Fault::Syntax(message)) => assert_eq!(message, "too many brackets, braces and dots"),
        other => panic!("{:?}", other),
    }
    let mut nested = b"cipher = ".to_vec();
    nested.extend(std::iter::repeat(b'[').take(129));
    assert!(matches!(parse_layer(&nested), Err(Fault::Syntax(_))));
    let mut dotted = b"a".to_vec();
    for _ in 0..200 {
        dotted.extend(b".a");
    }
    dotted.extend(b" = 1\n");
    match parse_layer(&dotted) {
        Err(Fault::Syntax(message)) => assert_eq!(message, "too many brackets, braces and dots"),
        other => panic!("{:?}", other),
    }
    let mut braces = b"cipher = ".to_vec();
    braces.extend(std::iter::repeat(b"{a=").take(10_000).flatten());
    assert!(matches!(parse_layer(&braces), Err(Fault::Syntax(_))));
}

#[test]
fn parse_layer_takes_brackets_and_dots_within_the_bound() {
    let layer = parse_layer(b"password-generator = \"pwgen -r '[]{}.' 16\"\n").unwrap();
    assert_eq!(layer.password_generator, Some("pwgen -r '[]{}.' 16".to_string()));
    let mut nested = b"cipher = ".to_vec();
    nested.extend(std::iter::repeat(b'[').take(100));
    nested.extend(std::iter::repeat(b']').take(100));
    match parse_layer(&nested) {
        Err(Fault::Mistyped(key)) => assert_eq!(key, "cipher"),
        other => panic!("{:?}", other),
    }
}

#[test]
fn parse_layer_counts_no_bracket_or_dot_in_comments_and_strings() {
    let dots = ".".repeat(129);
    let marks = "[{.".repeat(1000);
    let comment_only = format!("#{}", dots);
    let layer = parse_layer(comment_only.as_bytes()).unwrap();
    assert_eq!(layer.cipher, None);

    let flat = format!(
        "# {m}\ncipher = \"AES.{m}\" # {m}\nkey-length = 32 # {m}\npassword-generator = '{m}'\n# {m}",
        m = marks
    );
    let layer = parse_layer(flat.as_bytes()).unwrap();
    assert_eq!(layer.cipher, Some(format!("AES.{}", marks)));
    assert_eq!(layer.key_length, Some(32));
    assert_eq!(layer.password_generator, Some(marks.clone()));

    let escaped = format!("cipher = \"a\\\"{m}\\\\\" # {m}\n", m = marks);
    let layer = parse_layer(escaped.as_bytes()).unwrap();
    assert_eq!(layer.cipher, Some(format!("a\"{}\\", marks)));

    let lines = format!(
        "cipher = \"\"\"\n{m}\n\"{m}\"\"{m}\\\n   {m}\"\"\"\"\"\npassword-generator = '''{m}\n''{m}'''''\n\"key-length\" = 7\n",
        m = marks
    );
    let layer = parse_layer(lines.as_bytes()).unwrap();
    assert_eq!(layer.cipher, Some(format!("{m}\n\"{m}\"\"{m}{m}\"\"", m = marks)));
    assert_eq!(layer.password_generator, Some(format!("{m}\n''{m}''", m = marks)));
    assert_eq!(layer.key_length, Some(7));

    let empty = format!("cipher = \"\" # {m}\npassword-generator = '' # {m}\n", m = marks);
    let layer = parse_layer(empty.as_bytes()).unwrap();
    assert_eq!(layer.cipher, Some(String::new()));
    assert_eq!(layer.password_generator, Some(String::new()));
}

#[test]
fn parse_layer_agrees_with_the_parser_within_the_bound() {
    for text in [
        "cipher = \"x\"\n[a.b.c]\nd = 1\n",
        "a.b.c = 1\n",
        "cipher = { a = [1, 2, { b = 3.5 }] }\n",
        "key-length = 1.5\n",
        "cipher = \"unclosed\n[[[[",
        "cipher = 'it''s'\n",
        "# comment \u{7f} [.{\ncipher = \"ok\"\n",
    ] {
        let ours = parse_layer(text.as_bytes());
        let theirs: Result<toml::value::Table, _> = toml::from_slice(text.as_bytes());
        assert_eq!(ours.is_err() && matches!(ours, Err(Fault::Syntax(_))), theirs.is_err(), "{:?}", text);
    }
}

#[test]
fn too_deep_counts_what_stands_in_code() {
    let open = "[".repeat(129);
    assert_eq!(sala::document::too_deep(open.as_bytes()), true);
    assert_eq!(sala::document::too_deep("[".repeat(128).as_bytes()), false);
    assert_eq!(sala::document::too_deep(format!("#{}", open).as_bytes()), false);
    assert_eq!(sala::document::too_deep(format!("#\n{}", open).as_bytes()), true);
    assert_eq!(sala::document::too_deep(format!("#\r{}", open).as_bytes()), true);
    assert_eq!(sala::document::too_deep(format!("\"{}\"", open).as_bytes()), false);
    assert_eq!(sala::document::too_deep(format!("\"\"{}", open).as_bytes()), true);
    assert_eq!(sala::document::too_deep(format!("\"\\\"{}\"", open).as_bytes()), false);
    assert_eq!(sala::document::too_deep(format!("\"\\\\\"{}", open).as_bytes()), true);
    assert_eq!(sala::document::too_deep(format!("\"a\n{}", open).as_bytes()), true);
    assert_eq!(sala::document::too_deep(format!("'\\'{}", open).as_bytes()), true);
    assert_eq!(sala::document::too_deep(format!("\"\"\"\n\"\"{}\"\"\"", open).as_bytes()), false);
    assert_eq!(sala::document::too_deep(format!("\"\"\"a\"\"\"{}", open).as_bytes()), true);
    assert_eq!(sala::document::too_deep(format!("\"\"\"a\"\"\"\"\"{}", open).as_bytes()), true);
    assert_eq!(sala::document::too_deep(format!("\"\"\"a\"\"\"\"\"\"{}\"", open).as_bytes()), false);
    assert_eq!(sala::document::too_deep(format!("'''a''{}'''", open).as_bytes()), false);
    assert_eq!(sala::document::too_deep(format!("x = 1 # '\n{}", open).as_bytes()), true);
}
