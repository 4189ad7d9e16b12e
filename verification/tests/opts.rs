use kafka_test::opts::ConfigError;
use kafka_test::opts::KeyVal;
use kafka_test::opts::Mode;
use kafka_test::opts::OutputFormat;

#[test]
fn key_val_new_keeps_both_parts() {
    let kv = KeyVal::new(String::from("linger.ms"), String::from("0"));
    assert_eq!(kv.key, "linger.ms");
    assert_eq!(kv.val, "0");
}

#[test]
fn key_val_parses_at_the_first_separator() {
    let kv = KeyVal::from_str("batch.size=1024").unwrap();
    assert_eq!(kv.key, "batch.size");
    assert_eq!(kv.val, "1024");
    // Only the first `=` splits; the rest stays in the value.
    let kv = KeyVal::from_str("a=b=c").unwrap();
    assert_eq!(kv.key, "a");
    assert_eq!(kv.val, "b=c");
    // An empty key or value is allowed by the shape.
    let kv = KeyVal::from_str("=v").unwrap();
    assert_eq!(kv.key, "");
    assert_eq!(kv.val, "v");
    let kv = KeyVal::from_str("k=").unwrap();
    assert_eq!(kv.key, "k");
    assert_eq!(kv.val, "");
}

#[test]
fn key_val_without_separator_is_rejected() {
    assert_eq!(
        KeyVal::from_str("no-separator"),
        Err(ConfigError::MalformedKeyVal)
    );
    assert_eq!(KeyVal::from_str(""), Err(ConfigError::MalformedKeyVal));
}

#[test]
fn plain_option_enums_compare_and_copy() {
    assert_eq!(Mode::Peer, Mode::Peer);
    assert_ne!(Mode::Peer, Mode::Client);
    assert_eq!(OutputFormat::Human, OutputFormat::Human);
    assert_ne!(OutputFormat::Human, OutputFormat::Json);
}
