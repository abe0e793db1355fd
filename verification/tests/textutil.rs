use veritas::entry::{classify_init_error, extract_missing_class, InitErrorInfo};
use veritas::helpers::wrap_character_name;
use veritas::mailbox::Mailbox;
use veritas::text::{u32_to_string, u64_to_string};
use veritas::updater::LocalUpdateConfig;

#[test]
fn decimal_rendering_matches_expected_digits() {
    assert_eq!(u64_to_string(0), "0");
    assert_eq!(u64_to_string(7), "7");
    assert_eq!(u64_to_string(10), "10");
    assert_eq!(u64_to_string(1234567890), "1234567890");
    assert_eq!(u64_to_string(u64::MAX), "18446744073709551615");
    assert_eq!(u32_to_string(420999), "420999");
}

#[test]
fn extract_missing_class_takes_first_token_after_needle() {
    assert_eq!(
        extract_missing_class("init failed: no such class BattleEventHook: lookup"),
        Some("BattleEventHook".to_string())
    );
    assert_eq!(
        extract_missing_class("(no such class \"Quoted\") elsewhere"),
        Some("Quoted".to_string())
    );
    assert_eq!(extract_missing_class("everything is fine"), None);
    assert_eq!(extract_missing_class("no such class"), None);
    assert_eq!(extract_missing_class("no such class    "), None);
}

#[test]
fn extract_missing_class_stops_at_second_needle() {
    assert_eq!(
        extract_missing_class("no such classno such class"),
        None
    );
    assert_eq!(
        extract_missing_class("no such class Foo no such class Bar"),
        Some("Foo".to_string())
    );
}

#[test]
fn classify_init_error_distinguishes_obfuscation_mismatch() {
    match classify_init_error("boot: no such class Foo") {
        Some(InitErrorInfo::ObfuscationMismatch { class_name, message }) => {
            assert_eq!(class_name.as_deref(), Some("Foo"));
            assert_eq!(message, "boot: no such class Foo");
        }
        _ => panic!("expected an obfuscation mismatch"),
    }
    match classify_init_error("socket refused") {
        Some(InitErrorInfo::Other { message }) => {
            assert_eq!(message, "socket refused");
        }
        _ => panic!("expected a plain error"),
    }
}

#[test]
fn wrap_keeps_short_names_unchanged() {
    assert_eq!(wrap_character_name("March 7th", 20), "March 7th");
    assert_eq!(wrap_character_name("", 0), "");
}

#[test]
fn wrap_breaks_greedily_at_whitespace() {
    assert_eq!(wrap_character_name("Dan Heng Imbibitor Lunae", 8), "Dan Heng\nImbibitor\nLunae");
    assert_eq!(wrap_character_name("Topaz and Numby", 5), "Topaz\nand\nNumby");
    assert_eq!(wrap_character_name("Alpha Beta", 4), "Alpha\nBeta");
}

#[test]
fn wrap_measures_bytes_not_characters() {
    // Each of these katakana runs is three characters but nine bytes, so
    // the two words cannot share a ten-byte line.
    assert_eq!(wrap_character_name("アアア アアア", 10), "アアア\nアアア");
    // With room for nineteen bytes the words stay on one line.
    assert_eq!(wrap_character_name("アアア アアア", 19), "アアア アアア");
}

#[test]
fn wrap_returns_whitespace_only_names_unchanged() {
    assert_eq!(wrap_character_name("       ", 3), "       ");
}

#[test]
fn update_config_accepts_the_documented_booleans() {
    assert_eq!(LocalUpdateConfig::parse("beta = true"), Ok(true));
    assert_eq!(LocalUpdateConfig::parse("beta = 1"), Ok(true));
    assert_eq!(LocalUpdateConfig::parse("beta=YES"), Ok(true));
    assert_eq!(LocalUpdateConfig::parse("BETA = On"), Ok(true));
    assert_eq!(LocalUpdateConfig::parse("beta = false"), Ok(false));
    assert_eq!(LocalUpdateConfig::parse("beta = 0"), Ok(false));
    assert_eq!(LocalUpdateConfig::parse("beta = no"), Ok(false));
    assert_eq!(LocalUpdateConfig::parse("beta = OFF"), Ok(false));
}

#[test]
fn update_config_strips_quotes_and_comments() {
    assert_eq!(LocalUpdateConfig::parse("beta = \"true\""), Ok(true));
    assert_eq!(LocalUpdateConfig::parse("beta = 'on'"), Ok(true));
    assert_eq!(LocalUpdateConfig::parse("beta = true # enable the channel"), Ok(true));
    assert_eq!(LocalUpdateConfig::parse("# beta = true"), Ok(false));
}

#[test]
fn update_config_defaults_and_skips_unrelated_lines() {
    assert_eq!(LocalUpdateConfig::parse(""), Ok(false));
    assert_eq!(LocalUpdateConfig::parse("\n\n"), Ok(false));
    assert_eq!(LocalUpdateConfig::parse("channel = beta"), Ok(false));
    assert_eq!(LocalUpdateConfig::parse("other = true\nbeta = true"), Ok(true));
}

#[test]
fn update_config_reports_the_offending_line() {
    assert_eq!(LocalUpdateConfig::parse("beta = maybe"), Err(1));
    assert_eq!(LocalUpdateConfig::parse("# header\n\nbeta = 2"), Err(3));
}

#[test]
fn mailbox_is_last_value_wins() {
    let mut m: Mailbox<u32> = Mailbox::empty();
    assert!(!m.is_pending());
    assert_eq!(m.take(), None);
    m.put(1);
    m.put(2);
    assert!(m.is_pending());
    assert_eq!(m.take(), Some(2));
    assert_eq!(m.take(), None);
}

#[test]
fn default_update_config_is_stable_channel() {
    let cfg = LocalUpdateConfig::default();
    assert!(!cfg.beta);
}
