use rusty_tunes::handlers::message_handler::handle;
use rusty_tunes::service::emoticon_service::{
    config_path, parse_reaction, ConfigFile, EmoticonConfigError, EmoticonService, RawRule, ReactionType,
};

fn rule(pattern: &str, emoji: &str) -> RawRule {
    RawRule { pattern: pattern.to_string(), emoji: emoji.to_string() }
}

fn svc_from_json(json: &str) -> EmoticonService {
    let config: serde_json::Value = serde_json::from_str(json).unwrap();
    let rules = config["rules"]
        .as_array()
        .unwrap()
        .iter()
        .map(|r| rule(r["pattern"].as_str().unwrap(), r["emoji"].as_str().unwrap()))
        .collect();
    EmoticonService::load_from_path("emoticons.json", ConfigFile::Rules(rules)).unwrap()
}

fn unicode(reactions: &[ReactionType]) -> Vec<&str> {
    reactions
        .iter()
        .map(|r| match r {
            ReactionType::Unicode(s) => s.as_str(),
            _ => panic!("expected Unicode"),
        })
        .collect()
}

#[test]
fn parses_unicode() {
    let r = parse_reaction("👌").unwrap();
    assert!(matches!(r, ReactionType::Unicode(ref s) if s == "👌"));
}

#[test]
fn parses_custom_emoji() {
    let r = parse_reaction("<:ferris:123456789>").unwrap();
    match r {
        ReactionType::Custom { animated, id, name } => {
            assert!(!animated);
            assert_eq!(id, 123456789);
            assert_eq!(name.as_deref(), Some("ferris"));
        }
        _ => panic!("expected Custom"),
    }
}

#[test]
fn parses_animated_emoji() {
    let r = parse_reaction("<a:dance:987654321>").unwrap();
    match r {
        ReactionType::Custom { animated, id, .. } => {
            assert!(animated);
            assert_eq!(id, 987654321);
        }
        _ => panic!("expected Custom"),
    }
}

#[test]
fn rejects_invalid_emoji() {
    assert!(parse_reaction("<:bad>").is_err());
    assert!(parse_reaction("<:name:notanid>").is_err());
    assert!(parse_reaction("").is_err());
}

#[test]
fn detects_with_word_boundary() {
    let svc = svc_from_json(
        r#"{ "rules": [
                { "pattern": "(?i)\\bok\\b", "emoji": "👌" }
            ]}"#,
    );
    assert_eq!(svc.detect_reactions("ok").len(), 1);
    assert_eq!(svc.detect_reactions("look").len(), 0);
}

#[test]
fn deduplicates_same_emoji() {
    let svc = svc_from_json(
        r#"{ "rules": [
                { "pattern": "(?i)\\bthanks\\b", "emoji": "🙏" },
                { "pattern": "(?i)\\bthank you\\b", "emoji": "🙏" }
            ]}"#,
    );
    assert_eq!(svc.detect_reactions("thanks, thank you").len(), 1);
}

#[test]
fn missing_file_yields_empty_service() {
    let path = "/does/not/exist.json";
    assert!(!std::path::Path::new(path).exists());
    let svc = EmoticonService::load_from_path(path, ConfigFile::Missing).unwrap();
    assert!(svc.detect_reactions("anything").is_empty());
}

#[test]
fn trims_and_reads_every_form_of_a_mention() {
    let read = |raw: &str| match parse_reaction(raw).unwrap() {
        ReactionType::Custom { animated, id, name } => (animated, id, name),
        _ => panic!("expected Custom"),
    };
    assert_eq!(read(" \t<:a:7>\u{3000}"), (false, 7, Some("a".to_string())));
    assert_eq!(read("<a:b:c:7>"), (true, 7, Some("b:c".to_string())));
    assert_eq!(read("<::7>"), (false, 7, None));
    assert_eq!(read("<a::+7>"), (true, 7, None));
    assert_eq!(read("<plain:7>"), (false, 7, Some("plain".to_string())));
    assert_eq!(read("<:x:18446744073709551615>"), (false, u64::MAX, Some("x".to_string())));
}

#[test]
fn unfinished_mentions_are_plain_text() {
    for raw in ["<", "<:a:7", "a:7>", ">", "<a:b:c:7> x"] {
        assert!(matches!(parse_reaction(raw).unwrap(), ReactionType::Unicode(ref s) if s == raw));
    }
}

#[test]
fn refused_emoji_say_what_is_wrong() {
    let reason = |raw: &str| match parse_reaction(raw).unwrap_err() {
        EmoticonConfigError::InvalidEmoji { raw: r, reason } => {
            assert_eq!(r, raw);
            reason
        }
        _ => panic!("expected InvalidEmoji"),
    };
    assert_eq!(reason("  "), "empty emoji");
    assert_eq!(reason("<:bad>"), "expected '<:name:id>' or '<a:name:id>'");
    assert_eq!(reason("<>"), "expected '<:name:id>' or '<a:name:id>'");
    assert_eq!(reason("<a:5>"), "expected '<:name:id>' or '<a:name:id>'");
    assert_eq!(reason("<:name:notanid>"), "'notanid' is not a valid emoji id");
    assert_eq!(reason("<:x:18446744073709551616>"), "'18446744073709551616' is not a valid emoji id");
    assert_eq!(reason("<:x:-1>"), "'-1' is not a valid emoji id");
    assert_eq!(reason("<:x:+>"), "'+' is not a valid emoji id");
    assert_eq!(reason("<:x:>"), "'' is not a valid emoji id");
}

#[test]
fn config_errors_are_reported() {
    let err = |file| EmoticonService::load_from_path("e.json", file).err().unwrap().message();
    assert_eq!(err(ConfigFile::Unreadable("denied".to_string())), "Failed to read e.json: denied");
    assert_eq!(err(ConfigFile::Unparsable("eof".to_string())), "Failed to parse e.json: eof");
    let bad = err(ConfigFile::Rules(vec![rule("a", "x"), rule("(", "y")]));
    let told = regex::Regex::new("(").unwrap_err().to_string();
    assert_eq!(bad, format!("Invalid regex '(': {told}"));
    assert_eq!(err(ConfigFile::Rules(vec![rule("a", " ")])), "Invalid emoji ' ': empty emoji");
}

#[test]
fn first_bad_rule_is_reported_and_its_pattern_first() {
    let err = |rules| EmoticonService::load_from_path("e.json", ConfigFile::Rules(rules)).err().unwrap();
    assert!(matches!(err(vec![rule("[", "")]), EmoticonConfigError::InvalidRegex { ref pattern, .. } if pattern == "["));
    assert!(matches!(err(vec![rule("a", ""), rule("[", "x")]), EmoticonConfigError::InvalidEmoji { .. }));
}

#[test]
fn given_errors_decide_over_the_rules() {
    let errors = vec![None, Some("no".to_string())];
    let r = EmoticonService::from_rules(vec![rule("a", "x"), rule("b", "y")], &errors);
    assert_eq!(r.err().unwrap().message(), "Invalid regex 'b': no");
    let ok = EmoticonService::from_rules(vec![rule("a", "x")], &vec![None]).unwrap();
    assert_eq!(ok.rules.len(), 1);
    assert_eq!(ok.rules[0].pattern, "a");
}

#[test]
fn reactions_keep_the_order_of_the_rules() {
    let svc = EmoticonService::load_from_path(
        "e.json",
        ConfigFile::Rules(vec![rule("b", "2"), rule("a", "1"), rule("c", "2"), rule("d", "4")]),
    )
    .unwrap();
    assert_eq!(unicode(&svc.detect_reactions("a b c")), vec!["2", "1"]);
    assert_eq!(unicode(&svc.detect_reactions("abcd")), vec!["2", "1", "4"]);
    assert_eq!(unicode(&svc.pick_reactions(&vec![false, true, true, false])), vec!["1", "2"]);
}

#[test]
fn guild_emoji_are_told_apart_by_their_id() {
    let svc = EmoticonService::load_from_path(
        "e.json",
        ConfigFile::Rules(vec![rule("a", "<:x:1>"), rule("a", "<a:y:1>"), rule("a", "<:x:2>"), rule("a", "1")]),
    )
    .unwrap();
    let found = svc.detect_reactions("a");
    assert_eq!(found.len(), 3);
    assert!(matches!(found[0], ReactionType::Custom { animated: false, id: 1, .. }));
    assert!(matches!(found[1], ReactionType::Custom { id: 2, .. }));
    assert!(matches!(found[2], ReactionType::Unicode(_)));
}

#[test]
fn messages_of_bots_get_no_reaction() {
    let svc = svc_from_json(r#"{ "rules": [ { "pattern": "a", "emoji": "x" } ]}"#);
    assert!(handle(&svc, true, "a").is_empty());
    assert_eq!(unicode(&handle(&svc, false, "a")), vec!["x"]);
    assert!(EmoticonService::empty().detect_reactions("a").is_empty());
}

#[test]
fn configured_path_comes_first() {
    assert_eq!(config_path(Some("x.json".to_string())), "x.json");
    assert_eq!(config_path(None), "emoticons.json");
}
