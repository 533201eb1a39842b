use splitwiser::env::{parse_env_file, unescape_value, Env, EnvError, EnvVars};
use splitwiser::transaction::{IsolationLevel, TransactionMode};

fn pair(k: &str, v: &str) -> (String, String) {
    (String::from(k), String::from(v))
}

#[test]
fn env_file_lines_comments_and_pairs() {
    let text = "# settings\r\nDATABASE_URL=postgres://db/x?a=b\r\nnot a pair\nENV=dev\n\nENV=prod";
    let entries = parse_env_file(text);
    assert_eq!(
        entries,
        vec![
            pair("DATABASE_URL", "postgres://db/x?a=b"),
            pair("ENV", "dev"),
            pair("ENV", "prod"),
        ]
    );
    assert!(parse_env_file("").is_empty());
}

#[test]
fn newline_escapes_are_unescaped() {
    assert_eq!(unescape_value("a\\nb"), "a\nb");
    assert_eq!(unescape_value("\\\\n"), "\\\n");
    assert_eq!(unescape_value("\\"), "\\");
    assert_eq!(unescape_value("plain"), "plain");
}

#[test]
fn file_values_win_over_the_process_environment() {
    let file = vec![pair("DATABASE_URL", "file\\nurl"), pair("ENV", "a"), pair("ENV", "b")];
    let vars = EnvVars::load(Some(file), Some(String::from("process")), None).unwrap();
    assert_eq!(vars.database_url, "file\nurl");
    assert_eq!(vars.env, "b");
}

#[test]
fn process_environment_fills_what_the_file_lacks() {
    let vars = EnvVars::load(
        None,
        Some(String::from("postgres://x")),
        Some(String::from("test")),
    )
    .unwrap();
    assert_eq!(vars.database_url, "postgres://x");
    assert_eq!(vars.env, "test");
    let vars = EnvVars::load(Some(Vec::new()), Some(String::from("u")), Some(String::from("e")))
        .unwrap();
    assert_eq!(vars.database_url, "u");
    let env = Env::new(vars);
    assert_eq!(env.clone().vars().env, "e");
}

#[test]
fn missing_settings_are_reported_in_order() {
    assert_eq!(
        EnvVars::load(None, None, None).err(),
        Some(EnvError::MissingDatabaseUrl)
    );
    assert_eq!(
        EnvVars::load(None, Some(String::from("u")), None).err(),
        Some(EnvError::MissingEnv)
    );
}

#[test]
fn extra_keys_in_the_file_are_refused() {
    let file = vec![pair("DATABASE_URL", "u"), pair("ENV", "e"), pair("PORT", "80")];
    assert_eq!(
        EnvVars::load(Some(file), None, None).err(),
        Some(EnvError::ExtraKeys)
    );
}

#[test]
fn transaction_settings_per_mode() {
    let read = TransactionMode::Read.settings();
    assert_eq!(read.isolation, IsolationLevel::Serializable);
    assert!(read.read_only && read.deferrable);
    let write = TransactionMode::Write.settings();
    assert_eq!(write.isolation, IsolationLevel::RepeatableRead);
    assert!(!write.read_only && !write.deferrable);
}
