use srill::error::ConfigError;
use srill::mode::Mode;
use srill::resolve::{get_channel_lambda_pairs, resolve, resolve_config, Config, Sources};

fn defaults() -> Sources {
    Sources {
        redis_url: "redis://localhost:6379".to_string(),
        mode: Mode::Sqs,
        channels: None,
        config: None,
        channel: None,
        lambda: None,
    }
}

fn pairs_of(config: &srill::resolve::ResolvedConfig) -> Vec<(String, String)> {
    config.pairs.iter().map(|p| (p.channel.clone(), p.lambda.clone())).collect()
}

fn pair(channel: &str, lambda: &str) -> (String, String) {
    (channel.to_string(), lambda.to_string())
}

#[test]
fn config_file_is_used_alone() {
    let sources = Sources {
        channels: Some(vec!["x=y".to_string()]),
        config: Some(Config {
            redis_url: Some("redis://broker:1".to_string()),
            mode: Some("sqs".to_string()),
            channels: vec![pair("a", "fa"), pair("b", "fb")],
        }),
        channel: Some("legacy".to_string()),
        lambda: Some("old".to_string()),
        ..defaults()
    };
    let resolved = get_channel_lambda_pairs(&sources).unwrap();
    assert_eq!(resolved.redis_url, "redis://broker:1");
    assert_eq!(resolved.mode, Mode::Sqs);
    assert_eq!(pairs_of(&resolved), vec![pair("a", "fa"), pair("b", "fb")]);
}

#[test]
fn config_file_wins_even_over_a_bad_list() {
    let sources = Sources {
        channels: Some(vec!["not a pair".to_string()]),
        config: Some(Config { redis_url: None, mode: None, channels: vec![pair("a", "fa")] }),
        ..defaults()
    };
    let resolved = resolve(&sources).unwrap();
    assert_eq!(resolved.redis_url, "redis://localhost:6379");
    assert_eq!(pairs_of(&resolved), vec![pair("a", "fa")]);
}

#[test]
fn config_file_with_unknown_mode_is_refused() {
    let sources = Sources {
        config: Some(Config {
            redis_url: None,
            mode: Some("sns".to_string()),
            channels: vec![pair("a", "fa")],
        }),
        ..defaults()
    };
    let r = get_channel_lambda_pairs(&sources);
    assert!(matches!(r, Err(ConfigError::UnsupportedMode(ref name)) if name == "sns"));
    assert!(matches!(resolve(&sources), Err(ConfigError::UnsupportedMode(_))));
}

#[test]
fn mode_names_are_exact() {
    let config = Config { redis_url: None, mode: Some("SQS".to_string()), channels: vec![] };
    let r = resolve_config(&config, &"u".to_string(), Mode::Sqs);
    assert!(matches!(r, Err(ConfigError::UnsupportedMode(ref name)) if name == "SQS"));
}

#[test]
fn config_file_without_channels_cannot_start() {
    let sources = Sources {
        channels: Some(vec!["x=y".to_string()]),
        config: Some(Config { redis_url: None, mode: None, channels: vec![] }),
        ..defaults()
    };
    assert!(get_channel_lambda_pairs(&sources).unwrap().pairs.is_empty());
    assert!(matches!(resolve(&sources), Err(ConfigError::NoPairs)));
}

#[test]
fn list_wins_over_the_single_channel_form() {
    let sources = Sources {
        channels: Some(vec!["c1=l1".to_string(), "c2=l2".to_string()]),
        channel: Some("legacy".to_string()),
        lambda: Some("old".to_string()),
        ..defaults()
    };
    let resolved = resolve(&sources).unwrap();
    assert_eq!(resolved.redis_url, "redis://localhost:6379");
    assert_eq!(pairs_of(&resolved), vec![pair("c1", "l1"), pair("c2", "l2")]);
}

#[test]
fn bad_list_is_refused_even_with_a_single_channel_form() {
    let sources = Sources {
        channels: Some(vec!["c1=l1".to_string(), "c2".to_string()]),
        channel: Some("legacy".to_string()),
        lambda: Some("old".to_string()),
        ..defaults()
    };
    let r = resolve(&sources);
    assert!(matches!(r, Err(ConfigError::InvalidPair(ref entry)) if entry == "c2"));
}

#[test]
fn single_channel_form_gives_one_pair() {
    let sources = Sources {
        channel: Some("legacy".to_string()),
        lambda: Some("old".to_string()),
        ..defaults()
    };
    let resolved = resolve(&sources).unwrap();
    assert_eq!(pairs_of(&resolved), vec![pair("legacy", "old")]);
    assert_eq!(resolved.mode, Mode::Sqs);
}

#[test]
fn no_source_names_nothing() {
    let resolved = get_channel_lambda_pairs(&defaults()).unwrap();
    assert!(resolved.pairs.is_empty());
    assert_eq!(resolved.redis_url, "redis://localhost:6379");
    assert!(matches!(resolve(&defaults()), Err(ConfigError::NoPairs)));
}

#[test]
fn half_a_single_channel_form_names_nothing() {
    let sources = Sources { channel: Some("legacy".to_string()), ..defaults() };
    assert!(get_channel_lambda_pairs(&sources).unwrap().pairs.is_empty());
    assert!(matches!(resolve(&sources), Err(ConfigError::NoPairs)));
    let sources = Sources { lambda: Some("old".to_string()), ..defaults() };
    assert!(matches!(resolve(&sources), Err(ConfigError::NoPairs)));
}

#[test]
fn empty_list_cannot_start() {
    let sources = Sources {
        channels: Some(vec![]),
        channel: Some("legacy".to_string()),
        lambda: Some("old".to_string()),
        ..defaults()
    };
    assert!(matches!(resolve(&sources), Err(ConfigError::NoPairs)));
}

#[test]
fn duplicate_channels_are_kept() {
    let sources =
        Sources { channels: Some(vec!["c=l1".to_string(), "c=l2".to_string()]), ..defaults() };
    let resolved = resolve(&sources).unwrap();
    assert_eq!(pairs_of(&resolved), vec![pair("c", "l1"), pair("c", "l2")]);
}

#[test]
fn mode_has_its_name() {
    assert_eq!(Mode::Sqs.name(), "sqs");
    assert_eq!(Mode::from_name("sqs"), Some(Mode::Sqs));
    assert_eq!(Mode::from_name("sq"), None);
    assert_eq!(Mode::from_name("sqs "), None);
    assert_eq!(Mode::from_name(""), None);
}
