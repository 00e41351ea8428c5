use auth_gate::config::{
    checked_port, get_port, parse_u16, validate_required_env_vars, Config, DEFAULT_PORT,
};

const DB: Option<&str> = Some("postgresql://localhost/app");

#[test]
fn complete_settings_pass() {
    assert_eq!(validate_required_env_vars(DB, Some("s3cret"), Some("8080"), Some("info")), Ok(()));
    assert_eq!(validate_required_env_vars(DB, Some(""), Some("0"), Some("")), Ok(()));
    assert_eq!(validate_required_env_vars(DB, Some("s"), Some("65535"), Some("debug")), Ok(()));
}

#[test]
fn the_first_missing_setting_is_named() {
    assert_eq!(
        validate_required_env_vars(None, None, None, None),
        Err("Missing required environment variable: DATABASE_URL".to_string())
    );
    assert_eq!(
        validate_required_env_vars(DB, None, None, None),
        Err("Missing required environment variable: JWT_SECRET".to_string())
    );
    assert_eq!(
        validate_required_env_vars(DB, Some("s"), None, None),
        Err("Missing required environment variable: PORT".to_string())
    );
    assert_eq!(
        validate_required_env_vars(DB, Some("s"), Some("8080"), None),
        Err("Missing required environment variable: RUST_LOG".to_string())
    );
}

#[test]
fn a_missing_setting_is_reported_before_a_bad_one() {
    assert_eq!(
        validate_required_env_vars(Some("mysql://x"), Some("s"), Some("http"), None),
        Err("Missing required environment variable: RUST_LOG".to_string())
    );
}

#[test]
fn the_port_has_to_be_a_port_number() {
    for port in ["http", "", "65536", "-1", "80 ", "8o8o", "1.5"] {
        assert_eq!(
            validate_required_env_vars(DB, Some("s"), Some(port), Some("info")),
            Err("PORT must be a valid number between 0 and 65535".to_string())
        );
    }
    // the port is judged before the address of the database
    assert_eq!(
        validate_required_env_vars(Some("mysql://x"), Some("s"), Some("http"), Some("info")),
        Err("PORT must be a valid number between 0 and 65535".to_string())
    );
}

#[test]
fn the_database_has_to_be_postgres() {
    for url in ["mysql://localhost/app", "postgres://localhost/app", "", "POSTGRESQL://x", " postgresql://x"] {
        assert_eq!(
            validate_required_env_vars(Some(url), Some("s"), Some("8080"), Some("info")),
            Err("DATABASE_URL must be a valid PostgreSQL connection string".to_string())
        );
    }
    assert_eq!(validate_required_env_vars(Some("postgresql://"), Some("s"), Some("1"), Some("i")), Ok(()));
}

#[test]
fn the_port_is_read_or_defaults() {
    assert_eq!(DEFAULT_PORT, 8080);
    assert_eq!(get_port(None), 8080);
    assert_eq!(get_port(Some("3000")), 3000);
    assert_eq!(get_port(Some("0")), 0);
    assert_eq!(get_port(Some("65535")), 65535);
    assert_eq!(get_port(Some("+443")), 443);
    assert_eq!(checked_port(None), Some(8080));
    assert_eq!(checked_port(Some("3000")), Some(3000));
    assert_eq!(checked_port(Some("65536")), None);
    assert_eq!(checked_port(Some("http")), None);
    assert_eq!(checked_port(Some("")), None);
}

#[test]
fn settings_are_taken_from_what_is_set() {
    let config = Config::from_env(
        Some("postgresql://db".to_string()),
        Some("s3cret".to_string()),
        Some("0.0.0.0:9000".to_string()),
    )
    .unwrap();
    assert_eq!(config.database_url, "postgresql://db");
    assert_eq!(config.jwt_secret, "s3cret");
    assert_eq!(config.server_addr, "0.0.0.0:9000");
    let config =
        Config::from_env(Some("postgresql://db".to_string()), Some("s3cret".to_string()), None).unwrap();
    assert_eq!(config.server_addr, "127.0.0.1:8080");
}

#[test]
fn settings_without_database_or_secret_are_refused() {
    assert_eq!(
        Config::from_env(None, Some("s".to_string()), None).unwrap_err(),
        "DATABASE_URL must be set"
    );
    assert_eq!(Config::from_env(None, None, None).unwrap_err(), "DATABASE_URL must be set");
    assert_eq!(
        Config::from_env(Some("postgresql://db".to_string()), None, None).unwrap_err(),
        "JWT_SECRET must be set"
    );
}

#[test]
fn every_port_number_is_read_from_its_notation() {
    for number in 0..=u16::MAX {
        assert_eq!(parse_u16(&number.to_string()), Some(number));
    }
    for number in [0u16, 7, 80, 8080, 65535] {
        assert_eq!(parse_u16(&format!("+{}", number)), Some(number));
        assert_eq!(parse_u16(&format!("000{}", number)), Some(number));
        assert_eq!(parse_u16(&format!("+000{}", number)), Some(number));
    }
}

#[test]
fn numbers_are_read_as_the_standard_parser_reads_them() {
    let texts = [
        "", "+", "-", "++1", "+-1", "-1", "-0", "+0", "0", "00", "65535", "65536", "065536",
        "99999", "655350", "4294967296", "18446744073709551616", "1 ", " 1", "1\n", "0x10", "1e3",
        "1_000", "1.0", "١٢٣", "１２", "12a", "a12", "+", "+ 1", "1+", "８", "0000000000000000000001",
    ];
    for text in texts {
        assert_eq!(parse_u16(text), text.parse::<u16>().ok());
        assert_eq!(checked_port(Some(text)), text.parse::<u16>().ok());
    }
    // every text of up to three characters over an alphabet that holds what matters
    let alphabet = ['0', '1', '6', '9', '+', '-', ' ', 'a'];
    for a in alphabet {
        for b in alphabet {
            for c in alphabet {
                for text in [format!("{}", a), format!("{}{}", a, b), format!("{}{}{}", a, b, c)] {
                    assert_eq!(parse_u16(&text), text.parse::<u16>().ok());
                }
            }
        }
    }
    // around the largest number, with one more digit in each place
    for number in 65_000u32..=70_000 {
        let text = number.to_string();
        assert_eq!(parse_u16(&text), text.parse::<u16>().ok());
    }
}
