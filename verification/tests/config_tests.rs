use winery_auth::config::{ConfigError, Environment, Settings};
use winery_auth::text::{is_space_char, parse_i64, parse_u16, split_comma_list, trim_text};

fn environment() -> Environment {
    Environment {
        database_url: Some("postgres://winery@db/auth".to_string()),
        host: None,
        port: None,
        jwt_secret: Some("a-long-and-secret-signing-key".to_string()),
        jwt_expiration_hours: None,
        auth_service_url: None,
        allowed_origins: None,
        disclose_deactivation: None,
    }
}

#[test]
fn white_space_is_that_of_the_standard_library() {
    let mut code: u32 = 0;
    while code <= 0x10ffff {
        if let Some(c) = char::from_u32(code) {
            assert_eq!(is_space_char(c), c.is_whitespace(), "for U+{:04X}", code);
        }
        code += 1;
    }
}

#[test]
fn trimming_is_that_of_the_standard_library() {
    for text in [
        "",
        " ",
        "   ",
        "a",
        " a",
        "a ",
        "  a b  ",
        "\t\n a \r\n",
        "\u{a0}a\u{3000}",
        "\u{2003}http://localhost:3000\u{2028}",
        "a\u{200b}",
        " \u{feff}a ",
        "é ",
    ] {
        assert_eq!(trim_text(text), text.trim(), "for {:?}", text);
    }
}

#[test]
fn comma_lists_are_split_and_trimmed() {
    assert_eq!(split_comma_list("http://localhost:3000"), vec!["http://localhost:3000"]);
    assert_eq!(
        split_comma_list("http://a.example, https://b.example ,http://c.example"),
        vec!["http://a.example", "https://b.example", "http://c.example"]
    );
    assert_eq!(split_comma_list(""), vec![""]);
    assert_eq!(split_comma_list(","), vec!["", ""]);
    assert_eq!(split_comma_list(" a ,, b,"), vec!["a", "", "b", ""]);
    for text in ["", ",", ",,", "a", "a,b", " a , b ", "a,,b", ",a", "a,", " , ", "é, ü ,\u{3000}x\u{a0}"] {
        let expected: Vec<String> = text.split(',').map(|s| s.trim().to_string()).collect();
        assert_eq!(split_comma_list(text), expected, "for {:?}", text);
    }
}

#[test]
fn ports_are_read_as_the_standard_library_reads_them() {
    assert_eq!(parse_u16("0"), Some(0));
    assert_eq!(parse_u16("8003"), Some(8003));
    assert_eq!(parse_u16("65535"), Some(65535));
    assert_eq!(parse_u16("65536"), None);
    assert_eq!(parse_u16("+80"), Some(80));
    assert_eq!(parse_u16("0080"), Some(80));
    for text in [
        "", "+", "-", "-1", "-0", "++1", "+-1", " 80", "80 ", "8 0", "80a", "a80", "0x50", "1e3", "٣", "65535",
        "65536", "65540", "70000", "99999", "100000", "000000000000000000000000065535",
        "18446744073709551615", "18446744073709551616", "999999999999999999999999999999", "+65535", "+65536",
        "8003\n",
    ] {
        assert_eq!(parse_u16(text), text.parse::<u16>().ok(), "for {:?}", text);
    }
}

#[test]
fn hours_are_read_as_the_standard_library_reads_them() {
    assert_eq!(parse_i64("24"), Some(24));
    assert_eq!(parse_i64("-24"), Some(-24));
    assert_eq!(parse_i64("+24"), Some(24));
    assert_eq!(parse_i64("9223372036854775807"), Some(i64::MAX));
    assert_eq!(parse_i64("9223372036854775808"), None);
    assert_eq!(parse_i64("-9223372036854775808"), Some(i64::MIN));
    assert_eq!(parse_i64("-9223372036854775809"), None);
    for text in [
        "", "+", "-", "--1", "-+1", "+-1", "0", "-0", "+0", "007", "-007", " 1", "1 ", "1.5", "1h", "0x10",
        "9223372036854775806", "9223372036854775807", "9223372036854775808", "9223372036854775809",
        "-9223372036854775807", "-9223372036854775808", "-9223372036854775809", "18446744073709551615",
        "18446744073709551616", "-18446744073709551616", "99999999999999999999999999999999999999999",
        "-99999999999999999999999999999999999999999", "0000000000000000000000000000000000000000001",
    ] {
        assert_eq!(parse_i64(text), text.parse::<i64>().ok(), "for {:?}", text);
    }
}

#[test]
fn settings_take_defaults_where_nothing_is_set() {
    let settings = Settings::from_values(environment(), 8003).unwrap();
    assert_eq!(settings.database_url, "postgres://winery@db/auth");
    assert_eq!(settings.host, "127.0.0.1");
    assert_eq!(settings.port, 8003);
    assert_eq!(settings.jwt_secret, "a-long-and-secret-signing-key");
    assert_eq!(settings.jwt_expiration_hours, 24);
    assert_eq!(settings.auth_service_url, "http://localhost:8001");
    assert_eq!(settings.allowed_origins, vec!["http://localhost:3000"]);
    assert!(settings.disclose_deactivation);
    assert_eq!(settings.server_address(), "127.0.0.1:8003");
    assert_eq!(Settings::from_values(environment(), 8002).unwrap().port, 8002);
}

#[test]
fn settings_take_what_the_environment_sets() {
    let mut env = environment();
    env.host = Some("0.0.0.0".to_string());
    env.port = Some("9000".to_string());
    env.jwt_expiration_hours = Some("2".to_string());
    env.auth_service_url = Some("http://auth:8001".to_string());
    env.allowed_origins = Some("https://winery.example , https://admin.winery.example".to_string());
    env.disclose_deactivation = Some("false".to_string());
    let settings = Settings::from_values(env, 8003).unwrap();
    assert_eq!(settings.host, "0.0.0.0");
    assert_eq!(settings.port, 9000);
    assert_eq!(settings.jwt_expiration_hours, 2);
    assert_eq!(settings.auth_service_url, "http://auth:8001");
    assert_eq!(settings.allowed_origins, vec!["https://winery.example", "https://admin.winery.example"]);
    assert!(!settings.disclose_deactivation);
    assert_eq!(settings.server_address(), "0.0.0.0:9000");
    let mut env = environment();
    env.disclose_deactivation = Some("TRUE".to_string());
    assert!(!Settings::from_values(env, 1).unwrap().disclose_deactivation);
}

#[test]
fn misconfiguration_is_reported_in_order() {
    let mut env = environment();
    env.database_url = None;
    env.port = Some("http".to_string());
    env.jwt_secret = None;
    env.jwt_expiration_hours = Some("soon".to_string());
    assert_eq!(Settings::from_values(env.clone(), 8003).unwrap_err(), ConfigError::MissingDatabaseUrl);
    env.database_url = Some("postgres://db".to_string());
    assert_eq!(Settings::from_values(env.clone(), 8003).unwrap_err(), ConfigError::InvalidPort);
    env.port = Some("65536".to_string());
    assert_eq!(Settings::from_values(env.clone(), 8003).unwrap_err(), ConfigError::InvalidPort);
    env.port = Some("65535".to_string());
    assert_eq!(Settings::from_values(env.clone(), 8003).unwrap_err(), ConfigError::MissingJwtSecret);
    env.jwt_secret = Some(String::new());
    assert_eq!(Settings::from_values(env.clone(), 8003).unwrap_err(), ConfigError::InvalidExpirationHours);
    env.jwt_expiration_hours = Some("-1".to_string());
    let settings = Settings::from_values(env, 8003).unwrap();
    assert_eq!(settings.jwt_expiration_hours, -1);
    assert_eq!(settings.jwt_secret, "");
}

#[test]
fn configuration_errors_have_messages() {
    assert_eq!(ConfigError::MissingDatabaseUrl.message(), "DATABASE_URL must be set");
    assert_eq!(ConfigError::InvalidPort.message(), "PORT must be a number from 0 to 65535");
    assert_eq!(ConfigError::MissingJwtSecret.message(), "JWT_SECRET must be set");
    assert_eq!(ConfigError::InvalidExpirationHours.message(), "JWT_EXPIRATION_HOURS must be a number");
}
