use regex::Regex;
use shell_vars::config::{GlobalConfig, KV};
use shell_vars::store::Mapping;
use shell_vars::template::{splice, substitute, Placeholder};
use shell_vars::value::{Number, Value};

fn text(s: &str) -> Value {
    Value::Text(s.to_string())
}

fn num(n: u64) -> Value {
    Value::Number(Number::PosInt(n))
}

fn object(members: Vec<(&str, Value)>) -> Value {
    let mut mapping = Mapping::new();
    for (key, value) in members {
        mapping.set(key.to_string(), value);
    }
    Value::Object(mapping)
}

fn pattern() -> Regex {
    Regex::new(r"\$\{\s*(?P<key>\S+)\s*\}").unwrap()
}

fn tight() -> Regex {
    Regex::new(r"\$\{(?P<key>[^}]*)\}").unwrap()
}

#[test]
fn unknown_name_is_absent() {
    let mut vars = Mapping::new();
    vars.set("known".to_string(), num(1));
    assert_eq!(vars.resolve("n"), None);
    assert_eq!(vars.resolve("n.x"), None);
    assert_eq!(vars.resolve("n.x.y.0"), None);
}

#[test]
fn empty_path_is_absent() {
    let mut vars = Mapping::new();
    vars.set("a".to_string(), num(1));
    assert_eq!(vars.resolve(""), None);
    assert_eq!(vars.resolve("."), None);
    assert_eq!(vars.resolve("a."), None);
    assert_eq!(vars.resolve(".a"), None);
}

#[test]
fn bare_name_is_the_whole_value() {
    let mut vars = Mapping::new();
    vars.set("y".to_string(), object(vec![("0", text("z"))]));
    assert_eq!(vars.resolve("y"), Some(&object(vec![("0", text("z"))])));
}

#[test]
fn index_wins_on_an_array() {
    let mut vars = Mapping::new();
    vars.set(
        "x".to_string(),
        object(vec![("0", text("a")), ("arr", Value::Array(vec![num(10), num(20)]))]),
    );
    assert_eq!(vars.resolve("x.arr.0"), Some(&num(10)));
    assert_eq!(vars.resolve("x.arr.1"), Some(&num(20)));
    assert_eq!(vars.resolve("x.arr.2"), None);
    assert_eq!(vars.resolve("x.0"), Some(&text("a")));
}

#[test]
fn first_segment_is_a_name_even_if_numeric() {
    let mut vars = Mapping::new();
    vars.set("0".to_string(), object(vec![("0", text("z"))]));
    assert_eq!(vars.resolve("0"), Some(&object(vec![("0", text("z"))])));
}

#[test]
fn key_fallback_on_an_object() {
    let mut vars = Mapping::new();
    vars.set("objname".to_string(), object(vec![("0", text("z"))]));
    assert_eq!(vars.resolve("objname.0"), Some(&text("z")));
}

#[test]
fn nested_array_in_object() {
    let mut vars = Mapping::new();
    vars.set(
        "user".to_string(),
        object(vec![
            ("name", text("alice")),
            ("tags", Value::Array(vec![text("x"), text("y")])),
        ]),
    );
    assert_eq!(vars.resolve("user.tags.1"), Some(&text("y")));
    assert_eq!(vars.resolve("user.name"), Some(&text("alice")));
    assert_eq!(vars.resolve("user.tags.name"), None);
    assert_eq!(vars.resolve("user.name.0"), None);
}

#[test]
fn failed_step_stops_the_walk() {
    let mut vars = Mapping::new();
    vars.set("a".to_string(), object(vec![("b", num(1))]));
    assert_eq!(vars.resolve("a.c.b"), None);
    assert_eq!(vars.resolve("a.b.c"), None);
    assert_eq!(vars.resolve("a..b"), None);
}

#[test]
fn index_text_follows_the_machine_word_parser() {
    let items = Value::Array(vec![num(7), num(8)]);
    for segment in ["0", "1", "+1", "01", "001", "2", "-1", "1 ", " 1", "1_", "", "+", "++1", "0x1",
        "99999999999999999999999999", "١"]
    {
        let expected = match segment.parse::<usize>() {
            Ok(0) => Some(num(7)),
            Ok(1) => Some(num(8)),
            _ => None,
        };
        let mut vars = Mapping::new();
        vars.set("v".to_string(), Value::Array(vec![num(7), num(8)]));
        let path = format!("v.{}", segment);
        assert_eq!(vars.resolve(&path), expected.as_ref(), "segment {:?}", segment);
        assert_eq!(shell_vars::path::descend(&items, segment), expected.as_ref());
    }
}

#[test]
fn numeric_key_too_large_for_an_index_is_a_key() {
    let mut vars = Mapping::new();
    vars.set(
        "o".to_string(),
        object(vec![("99999999999999999999999999", text("big")), ("+1", text("plus"))]),
    );
    assert_eq!(vars.resolve("o.99999999999999999999999999"), Some(&text("big")));
    assert_eq!(vars.resolve("o.+1"), Some(&text("plus")));
}

#[test]
fn object_holds_each_key_once() {
    let v = object(vec![("k", num(1)), ("j", num(0)), ("k", num(2))]);
    assert_eq!(v.get_key("k"), Some(&num(2)));
    assert_eq!(v.get_key("j"), Some(&num(0)));
    assert_eq!(v.get_key("i"), None);
    match &v {
        Value::Object(members) => {
            assert_eq!(members.names().len(), 2);
            assert_eq!(members.entries().len(), 2);
            assert_eq!(members.get("k"), Some(&num(2)));
        }
        _ => panic!("an object expected"),
    }
    assert_eq!(v.get_index(0), None);
    assert_eq!(text("k").get_key("k"), None);
}

#[test]
fn split_path_keeps_empty_segments() {
    assert_eq!(shell_vars::path::split_path(""), vec![String::new()]);
    assert_eq!(shell_vars::path::split_path("a"), vec!["a".to_string()]);
    assert_eq!(
        shell_vars::path::split_path("a..b."),
        vec!["a".to_string(), String::new(), "b".to_string(), String::new()]
    );
    assert_eq!(shell_vars::path::split_path("é.ü"), vec!["é".to_string(), "ü".to_string()]);
}

#[test]
fn set_twice_keeps_one_entry_with_the_second_value() {
    let mut vars = Mapping::new();
    vars.set("k".to_string(), num(1));
    vars.set("other".to_string(), num(5));
    vars.set("k".to_string(), num(2));
    let names = vars.names();
    assert_eq!(names.iter().filter(|n| **n == "k").count(), 1);
    assert_eq!(names.len(), 2);
    assert_eq!(vars.resolve("k"), Some(&num(2)));
    assert_eq!(vars.resolve("other"), Some(&num(5)));
}

#[test]
fn merge_applies_pairs_in_sequence() {
    let mut vars = Mapping::new();
    vars.set("a".to_string(), num(0));
    vars.merge(vec![
        ("a".to_string(), num(1)),
        ("b".to_string(), num(2)),
        ("a".to_string(), num(3)),
    ]);
    assert_eq!(vars.resolve("a"), Some(&num(3)));
    assert_eq!(vars.resolve("b"), Some(&num(2)));
    let mut names = vars.names();
    names.sort();
    assert_eq!(names, vec!["a", "b"]);
}

#[test]
fn substitute_number() {
    let mut vars = Mapping::new();
    vars.set("amount".to_string(), num(300));
    assert_eq!(substitute(&vars, &pattern(), "send ${amount} now"), "send 300 now");
}

#[test]
fn substitute_twice_gives_the_same_line() {
    let mut vars = Mapping::new();
    vars.set("amount".to_string(), num(300));
    vars.set("to".to_string(), text("bob"));
    let p = pattern();
    let line = "send ${amount} to ${to} and ${nobody}";
    let first = substitute(&vars, &p, line);
    let second = substitute(&vars, &p, line);
    assert_eq!(first, "send 300 to bob and ");
    assert_eq!(first, second);
}

#[test]
fn substitute_unknown_path_erases_the_placeholder() {
    let vars = Mapping::new();
    assert_eq!(vars.resolve("missing.path"), None);
    assert_eq!(substitute(&vars, &pattern(), "a ${missing.path} b"), "a  b");
}

#[test]
fn substitute_other_kinds_give_nothing() {
    let mut vars = Mapping::new();
    vars.set("n".to_string(), Value::Null);
    vars.set("b".to_string(), Value::Bool(true));
    vars.set("a".to_string(), Value::Array(vec![num(1)]));
    vars.set("o".to_string(), object(vec![("k", text("v"))]));
    assert_eq!(
        substitute(&vars, &tight(), "[${n}][${b}][${a}][${o}][${a.0}][${o.k}]"),
        "[][][][][1][v]"
    );
}

#[test]
fn substitute_counts_characters_not_bytes() {
    let mut vars = Mapping::new();
    vars.set("wer".to_string(), text("Zoë"));
    assert_eq!(
        substitute(&vars, &pattern(), "grüße an ${wer} — und ${ wer }!"),
        "grüße an Zoë — und Zoë!"
    );
}

#[test]
fn substitute_without_match_keeps_the_line() {
    let vars = Mapping::new();
    assert_eq!(substitute(&vars, &pattern(), "nothing here"), "nothing here");
    assert_eq!(substitute(&vars, &pattern(), ""), "");
}

#[test]
fn substitute_pattern_without_the_group_erases_matches() {
    let mut vars = Mapping::new();
    vars.set("x".to_string(), num(1));
    let p = Regex::new(r"\$\{(\S+)\}").unwrap();
    assert_eq!(substitute(&vars, &p, "a ${x} b"), "a  b");
}

#[test]
fn substitute_adjacent_and_empty_matches() {
    let mut vars = Mapping::new();
    vars.set("x".to_string(), num(1));
    assert_eq!(substitute(&vars, &tight(), "${x}${x}"), "11");
    assert_eq!(substitute(&vars, &tight(), "${}${x}"), "1");
    let p = Regex::new(r"(?P<key>x*)").unwrap();
    assert_eq!(substitute(&vars, &p, "axb"), "a1b");
}

#[test]
fn greedy_group_reaches_over_placeholders() {
    let mut vars = Mapping::new();
    vars.set("x".to_string(), num(1));
    assert_eq!(substitute(&vars, &pattern(), "a ${x}${x} b"), "a  b");
    assert_eq!(substitute(&vars, &pattern(), "a ${x} ${x} b"), "a 1 1 b");
}

#[test]
fn splice_replaces_the_given_spans() {
    let mut vars = Mapping::new();
    vars.set("x".to_string(), text("X"));
    let found = vec![
        Placeholder { start: 0, end: 1, key: Some("x".to_string()) },
        Placeholder { start: 2, end: 2, key: None },
        Placeholder { start: 3, end: 5, key: Some("y".to_string()) },
    ];
    assert_eq!(splice(&vars, "abcdef", &found), "Xbcf");
    assert_eq!(splice(&vars, "abcdef", &Vec::new()), "abcdef");
}

#[test]
fn number_texts() {
    assert_eq!(Number::PosInt(0).to_text(), "0");
    assert_eq!(Number::PosInt(300).to_text(), "300");
    assert_eq!(Number::PosInt(u64::MAX).to_text(), "18446744073709551615");
    assert_eq!(Number::NegInt(-5).to_text(), "-5");
    assert_eq!(Number::NegInt(i64::MIN).to_text(), "-9223372036854775808");
    assert_eq!(Number::NegInt(7).to_text(), "7");
    assert_eq!(Number::Real("1.5".to_string()).to_text(), "1.5");
}

#[test]
fn substitute_negative_and_real_numbers() {
    let mut vars = Mapping::new();
    vars.set("n".to_string(), Value::Number(Number::NegInt(-12)));
    vars.set("r".to_string(), Value::Number(Number::Real("0.25".to_string())));
    assert_eq!(substitute(&vars, &pattern(), "${n} ${r}"), "-12 0.25");
}

#[test]
fn query_with_a_path_yields_once() {
    let mut config = GlobalConfig::new(None, None);
    config.set("a".to_string(), num(1));
    let mut answer = config.get(Some("a"));
    assert_eq!(answer.next(), Some(&num(1)));
    assert_eq!(answer.next(), None);
    assert_eq!(answer.next(), None);
    let mut missing = config.get(Some("b"));
    assert_eq!(missing.next(), None);
}

#[test]
fn query_without_a_path_lists_names() {
    let mut config = GlobalConfig::new(None, None);
    config
        .set("a".to_string(), num(1))
        .set("b".to_string(), num(2))
        .set("a".to_string(), num(3));
    let mut answer = config.get(None);
    assert_eq!(answer.next(), None);
    match answer {
        KV::Keys(mut names) => {
            names.sort();
            assert_eq!(names, vec!["a", "b"]);
        }
        KV::Value(_) => panic!("names expected"),
    }
}

#[test]
fn render_answers() {
    let v = num(1);
    assert_eq!(KV::Value(Some(&v)).render("1\n"), "1\n");
    assert_eq!(KV::Value(None).render("ignored"), "None");
    assert_eq!(KV::Keys(vec![]).render("ignored"), "");
    assert_eq!(KV::Keys(vec!["a"]).render("ignored"), "0) a");
    let many: Vec<String> = (0..12).map(|i| format!("n{}", i)).collect();
    let names: Vec<&str> = many.iter().map(String::as_str).collect();
    let rendered = KV::Keys(names).render("");
    let lines: Vec<&str> = rendered.split('\n').collect();
    assert_eq!(lines.len(), 12);
    assert_eq!(lines[0], "0) n0");
    assert_eq!(lines[10], "10) n10");
    assert_eq!(lines[11], "11) n11");
}

#[test]
fn config_replaces_in_a_command() {
    let mut config = GlobalConfig::new(None, None);
    config.add_env_vars(vec![
        ("addr".to_string(), text("ckt1")),
        ("cap".to_string(), object(vec![("list", Value::Array(vec![num(61), num(62)]))])),
    ]);
    assert_eq!(
        config.replace_cmd(&pattern(), "transfer --to ${addr} --capacity ${cap.list.1}"),
        "transfer --to ckt1 --capacity 62"
    );
}

#[test]
fn new_config_defaults() {
    let config = GlobalConfig::new(Some("http://node:1".to_string()), None);
    assert_eq!(config.get_url(), "http://node:1");
    assert_eq!(config.get_ckb_indexer_url(), "http://127.0.0.1:8116");
    assert!(config.color());
    assert!(!config.debug());
    assert!(!config.no_sync());
    assert!(config.completion_style());
    assert!(config.edit_style());
    assert!(config.env_variable.names().is_empty());
    assert_eq!(config.network(), None);
    assert_eq!(GlobalConfig::new(None, None).get_url(), "http://127.0.0.1:8114");
}

#[test]
fn urls_get_a_scheme() {
    let mut config = GlobalConfig::new(None, None);
    config.set_url("localhost:8114".to_string());
    assert_eq!(config.get_url(), "http://localhost:8114");
    config.set_url("https://node.example".to_string());
    assert_eq!(config.get_url(), "https://node.example");
    config.set_url("http://node.example".to_string());
    assert_eq!(config.get_url(), "http://node.example");
    config.set_url("http:/x".to_string());
    assert_eq!(config.get_url(), "http://http:/x");
    config.set_ckb_indexer_url("".to_string());
    assert_eq!(config.get_ckb_indexer_url(), "http://");
    config.set_ckb_indexer_url("https://i".to_string());
    assert_eq!(config.get_ckb_indexer_url(), "https://i");
    assert_eq!(config.get_url(), "http://http:/x");
}

#[test]
fn switches_and_setters() {
    let mut config = GlobalConfig::new(None, None);
    config.switch_color();
    assert!(!config.color());
    config.switch_color();
    assert!(config.color());
    config.switch_debug();
    assert!(config.debug());
    config.switch_completion_style();
    assert!(!config.completion_style());
    config.switch_edit_style();
    assert!(!config.edit_style());
    config.set_color(false);
    config.set_debug(false);
    config.set_no_sync(true);
    config.set_completion_style(true);
    config.set_edit_style(true);
    assert!(!config.color());
    assert!(!config.debug());
    assert!(config.no_sync());
    assert!(config.completion_style());
    assert!(config.edit_style());
}

#[test]
fn prefixes() {
    assert!(shell_vars::config::has_prefix("http://x", "http://"));
    assert!(shell_vars::config::has_prefix("abc", ""));
    assert!(!shell_vars::config::has_prefix("ab", "abc"));
    assert!(!shell_vars::config::has_prefix("abd", "abc"));
}
