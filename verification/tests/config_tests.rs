use task_auth::config::{parse_env_line, parse_trimmed_line, Config, ConfigError};

fn pair(key: &str, value: &str) -> Option<(String, String)> {
    Some((String::from(key), String::from(value)))
}

#[test]
fn env_lines_split_at_the_first_equals_sign() {
    assert_eq!(parse_env_line("SECRET=abc").unwrap(), pair("SECRET", "abc"));
    assert_eq!(parse_env_line("  SECRET=abc \t").unwrap(), pair("SECRET", "abc"));
    assert_eq!(
        parse_env_line("DATABASE_URL=postgres://u:p@h/db?x=1").unwrap(),
        pair("DATABASE_URL", "postgres://u:p@h/db?x=1")
    );
    assert_eq!(parse_env_line("KEY=").unwrap(), pair("KEY", ""));
    assert_eq!(parse_env_line("=value").unwrap(), pair("", "value"));
    assert_eq!(parse_env_line("KEY = v").unwrap(), pair("KEY ", " v"));
    assert_eq!(parse_env_line("CL\u{c9}=\u{e9}t\u{e9}").unwrap(), pair("CL\u{c9}", "\u{e9}t\u{e9}"));
}

#[test]
fn blank_lines_and_comments_are_skipped() {
    assert_eq!(parse_env_line("").unwrap(), None);
    assert_eq!(parse_env_line("   ").unwrap(), None);
    assert_eq!(parse_env_line("# SECRET=abc").unwrap(), None);
    assert_eq!(parse_env_line("  #comment").unwrap(), None);
}

#[test]
fn a_line_without_equals_sign_is_invalid() {
    match parse_env_line("  SECRET ") {
        Err(ConfigError::InvalidLine(line)) => assert_eq!(line, "  SECRET "),
        other => panic!("unexpected: {:?}", other),
    }
}

#[test]
fn config_errors_describe_themselves() {
    assert_eq!(
        ConfigError::InvalidLine(String::from("SECRET")).message(),
        "Invalid line: SECRET"
    );
    assert_eq!(ConfigError::FileNotFound.message(), "File not found");
    assert_eq!(ConfigError::ErrorReadingFile.message(), "Error reading file");
    assert_eq!(ConfigError::ErrorOpeningFile.message(), "Error opening file");
    let config = Config::new(
        String::from("127.0.0.1:3000"),
        String::from("postgres://db"),
        String::from("s"),
    );
    assert_eq!(config.server_addr, "127.0.0.1:3000");
    assert_eq!(config.database_url, "postgres://db");
    assert_eq!(config.secret, "s");
}

#[test]
fn trimmed_lines_read_as_they_stand() {
    assert_eq!(parse_trimmed_line("KEY=v", "  KEY=v ").unwrap(), pair("KEY", "v"));
    assert_eq!(parse_trimmed_line(" KEY=v ", " KEY=v ").unwrap(), pair(" KEY", "v "));
    assert_eq!(parse_trimmed_line("a=b=c", "a=b=c").unwrap(), pair("a", "b=c"));
    assert_eq!(parse_trimmed_line("", "   ").unwrap(), None);
    assert_eq!(parse_trimmed_line("#x=1", "#x=1").unwrap(), None);
    assert_eq!(parse_trimmed_line(" #x=1", " #x=1").unwrap(), pair(" #x", "1"));
    match parse_trimmed_line("KEY", " KEY ") {
        Err(ConfigError::InvalidLine(line)) => assert_eq!(line, " KEY "),
        other => panic!("unexpected: {:?}", other),
    }
}
