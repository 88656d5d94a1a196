//! Reading configuration out of an environment.

use bx402::config::{
    enabled_rails, parse_enabled_rails, require_var, Environment, Setting, Variable,
};
use bx402::{banner, health, AppError, Config, VERSION};

struct Case {
    /// Label printed if the assertion fails.
    name: &'static str,
    /// The `ENABLED_RAILS` value to parse.
    value: &'static str,
    /// The `(x402, mpp)` flags the value should parse to, or `None` when the value must be
    /// rejected.
    expected: Option<(bool, bool)>,
}

#[test]
fn parse_enabled_rails_accepts_only_known_rails() {
    let cases = [
        Case {
            name: "both rails",
            value: "x402,mpp",
            expected: Some((true, true)),
        },
        Case {
            name: "both rails, either order",
            value: "mpp,x402",
            expected: Some((true, true)),
        },
        Case {
            name: "x402 only",
            value: "x402",
            expected: Some((true, false)),
        },
        Case {
            name: "mpp only",
            value: "mpp",
            expected: Some((false, true)),
        },
        Case {
            name: "whitespace around tokens",
            value: " x402 , mpp ",
            expected: Some((true, true)),
        },
        Case {
            name: "duplicate rail",
            value: "x402,x402",
            expected: Some((true, false)),
        },
        Case {
            name: "empty",
            value: "",
            expected: None,
        },
        Case {
            name: "only whitespace",
            value: "  ",
            expected: None,
        },
        Case {
            name: "unknown rail",
            value: "btc",
            expected: None,
        },
        Case {
            name: "rail names are lowercase",
            value: "X402",
            expected: None,
        },
        Case {
            name: "trailing comma",
            value: "x402,",
            expected: None,
        },
    ];
    for Case {
        name,
        value,
        expected,
    } in cases
    {
        let parsed = parse_enabled_rails(value).map(|rails| (rails.x402, rails.mpp));
        match expected {
            Some(flags) => assert_eq!(parsed.ok(), Some(flags), "case: {name}"),
            None => {
                let message = parsed.expect_err(name).message();
                assert!(
                    message.contains("ENABLED_RAILS"),
                    "case: {name}, error was: {message}"
                );
            }
        }
    }
}

#[test]
fn an_unknown_rail_is_named_in_the_error() {
    let err = parse_enabled_rails("x402, b\"tc").expect_err("an unknown rail is refused");
    assert_eq!(
        err.message(),
        "invalid configuration: ENABLED_RAILS: unknown rail \"b\\\"tc\", expected a comma-separated subset of x402,mpp"
    );
    // Unicode white space is trimmed like any other.
    let parsed = parse_enabled_rails("\u{3000}mpp\u{a0},\tx402\n").expect("both are rails");
    assert_eq!((parsed.x402, parsed.mpp), (true, true));
}

fn environment(settings: &[(&str, &str)]) -> Environment {
    Environment {
        settings: settings
            .iter()
            .map(|(name, value)| Setting {
                name: name.to_string(),
                variable: Variable::Value(value.to_string()),
            })
            .collect(),
    }
}

const FULL: [(&str, &str); 4] = [
    ("BRAVE_SEARCH_API_KEY", "key"),
    ("X402_FACILITATOR_URL", "http://facilitator"),
    ("MPP_RPC_URL", "http://rpc"),
    ("MPP_SECRET_KEY", "hush"),
];

#[test]
fn a_full_environment_configures_both_rails() {
    let config = Config::from_env(&environment(&FULL)).expect("the environment is complete");
    assert_eq!(config.brave_search_api_key, "key");
    assert_eq!(
        config.brave_search_api_base_url,
        "https://api.search.brave.com"
    );
    assert_eq!(config.x402_rail().facilitator_url, "http://facilitator");
    assert_eq!(config.mpp_rail().rpc_url, "http://rpc");
    assert_eq!(config.mpp_rail().secret_key, "hush");
    assert_eq!(config.restricted_address_s3_bucket, None);
    assert!(!config.allow_testnet);
    // Every variable that is read is named.
    assert_eq!(Config::variables().len(), 8);
}

#[test]
fn optional_variables_are_read() {
    let mut settings = FULL.to_vec();
    settings.push(("BRAVE_SEARCH_API_BASE_URL", "http://mock"));
    settings.push(("RESTRICTED_ADDRESS_S3_BUCKET", "listed"));
    settings.push(("ALLOW_TESTNET", "true"));
    let config = Config::from_env(&environment(&settings)).unwrap();
    assert_eq!(config.brave_search_api_base_url, "http://mock");
    assert_eq!(config.restricted_address_s3_bucket.as_deref(), Some("listed"));
    assert!(config.allow_testnet);

    // An empty bucket turns screening off, and only `true` allows the testnet.
    let mut settings = FULL.to_vec();
    settings.push(("RESTRICTED_ADDRESS_S3_BUCKET", ""));
    settings.push(("ALLOW_TESTNET", "TRUE"));
    let config = Config::from_env(&environment(&settings)).unwrap();
    assert_eq!(config.restricted_address_s3_bucket, None);
    assert!(!config.allow_testnet);
}

#[test]
fn a_missing_required_variable_is_named() {
    for missing in [
        "BRAVE_SEARCH_API_KEY",
        "X402_FACILITATOR_URL",
        "MPP_RPC_URL",
        "MPP_SECRET_KEY",
    ] {
        let settings: Vec<_> = FULL.into_iter().filter(|(name, _)| *name != missing).collect();
        let err = Config::from_env(&environment(&settings)).expect_err(missing);
        assert!(matches!(err, AppError::MissingConfig(name) if name == missing));
        assert_eq!(
            err.message(),
            format!("missing required configuration: {missing}")
        );
    }
}

#[test]
fn a_variable_that_is_not_unicode_is_invalid() {
    let mut env = environment(&FULL[1..]);
    env.settings.push(Setting {
        name: "BRAVE_SEARCH_API_KEY".to_string(),
        variable: Variable::NotUnicode,
    });
    let err = Config::from_env(&env).expect_err("the key cannot be read");
    assert_eq!(
        err.message(),
        "invalid configuration: BRAVE_SEARCH_API_KEY: not valid Unicode"
    );

    let mut env = environment(&FULL);
    env.settings.push(Setting {
        name: "ENABLED_RAILS".to_string(),
        variable: Variable::NotUnicode,
    });
    let err = enabled_rails(&env).expect_err("the rails cannot be read");
    assert_eq!(
        err.message(),
        "invalid configuration: ENABLED_RAILS: not valid Unicode"
    );
    assert!(require_var(&env, "MPP_RPC_URL").is_ok());
}

#[test]
fn a_disabled_rail_needs_none_of_its_variables() {
    let x402_only = environment(&[
        ("BRAVE_SEARCH_API_KEY", "key"),
        ("ENABLED_RAILS", "x402"),
        ("X402_FACILITATOR_URL", "http://facilitator"),
    ]);
    let config = Config::from_env(&x402_only).expect("the MPP variables are not read");
    assert!(config.x402.is_some());
    assert!(config.mpp.is_none());

    let mpp_only = environment(&[
        ("BRAVE_SEARCH_API_KEY", "key"),
        ("ENABLED_RAILS", "mpp"),
        ("MPP_RPC_URL", "http://rpc"),
        ("MPP_SECRET_KEY", "hush"),
    ]);
    let config = Config::from_env(&mpp_only).expect("the x402 variable is not read");
    assert!(config.x402.is_none());
    assert!(config.mpp.is_some());
}

#[test]
fn configs_are_built_from_the_test_config() {
    let config = Config::for_tests()
        .with_facilitator_url("http://f".to_string())
        .with_mpp_rpc_url("http://r".to_string());
    assert_eq!(config.x402_rail().facilitator_url, "http://f");
    assert_eq!(config.mpp_rail().rpc_url, "http://r");
    assert_eq!(config.mpp_rail().secret_key, "test-secret");
    let config = config.without_x402();
    assert!(config.x402.is_none() && config.mpp.is_some());
    let config = config.without_mpp();
    assert!(config.x402.is_none() && config.mpp.is_none());
}

#[test]
fn banner_includes_name_and_version() {
    let banner = banner();
    assert!(banner.starts_with("bx402 v"));
    assert!(banner.contains(VERSION));
}

#[test]
fn health_returns_200() {
    let reply = health();
    assert_eq!(reply.status, 200);
    assert!(reply.body.is_empty());
}
