use uniswapv3pool::config::{Config, ConfigError, ConfigField, RawConfig};

const TOKEN_ONE: &str = "0xC02aaA39b223FE8D0A0e5C4F27eAD9083C756Cc2";
const TOKEN_TWO: &str = "a0b86991c6218b36c1d19d4a2e9eb0ce3606eb48";

fn raw(url_one: &str, url_two: &str, token_one: &str, token_two: &str) -> RawConfig {
    RawConfig {
        url_one: url_one.to_string(),
        url_two: url_two.to_string(),
        token_one: token_one.to_string(),
        token_two: token_two.to_string(),
    }
}

#[test]
fn valid_config_keeps_its_fields() {
    let c = Config::parse(raw("http://localhost:8545", "wss://node.example/ws", TOKEN_ONE, TOKEN_TWO))
        .unwrap();
    assert_eq!(c.url_one().as_str(), "http://localhost:8545");
    assert_eq!(c.url_two().as_str(), "wss://node.example/ws");
    let one = c.token_address_one().bytes;
    assert_eq!(one[0], 0xc0);
    assert_eq!(one[1], 0x2a);
    assert_eq!(one[19], 0xc2);
    let two = c.token_address_two().bytes;
    assert_eq!(two[0], 0xa0);
    assert_eq!(two[19], 0x48);
}

#[test]
fn upper_case_prefix_is_accepted() {
    let c = Config::parse(raw(
        "http://a.example",
        "http://b.example",
        "0X0000000000000000000000000000000000000001",
        TOKEN_TWO,
    ))
    .unwrap();
    assert_eq!(c.token_address_one().bytes[19], 1);
}

#[test]
fn invalid_first_url_is_named() {
    assert_eq!(
        Config::parse(raw("not a url", "also bad", TOKEN_ONE, TOKEN_TWO)),
        Err(ConfigError::InvalidUrl(ConfigField::UrlOne, "not a url".to_string()))
    );
}

#[test]
fn invalid_second_url_is_named() {
    assert_eq!(
        Config::parse(raw("http://a.example", "::", TOKEN_ONE, TOKEN_TWO)),
        Err(ConfigError::InvalidUrl(ConfigField::UrlTwo, "::".to_string()))
    );
}

#[test]
fn short_address_is_named() {
    let short = "0xC02aaA39b223FE8D0A0e5C4F27eAD9083C756C";
    assert_eq!(
        Config::parse(raw("http://a.example", "http://b.example", short, TOKEN_TWO)),
        Err(ConfigError::InvalidAddress(ConfigField::TokenOne, short.to_string()))
    );
}

#[test]
fn non_hex_address_is_named() {
    let bad = "0xg02aaA39b223FE8D0A0e5C4F27eAD9083C756Cc2";
    assert_eq!(
        Config::parse(raw("http://a.example", "http://b.example", TOKEN_ONE, bad)),
        Err(ConfigError::InvalidAddress(ConfigField::TokenTwo, bad.to_string()))
    );
}

#[test]
fn long_address_is_named() {
    let long = "0xC02aaA39b223FE8D0A0e5C4F27eAD9083C756Cc200";
    assert_eq!(
        Config::parse(raw("http://a.example", "http://b.example", TOKEN_ONE, long)),
        Err(ConfigError::InvalidAddress(ConfigField::TokenTwo, long.to_string()))
    );
}
