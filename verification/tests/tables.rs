use ckb_sdk::NetworkType;
use shell_vars::config::GlobalConfig;
use shell_vars::table::{max_width, pad, table};

#[test]
fn pad_aligns_to_the_right() {
    assert_eq!(pad("url", 6), "   url");
    assert_eq!(pad("url", 3), "url");
    assert_eq!(pad("url", 0), "url");
    assert_eq!(pad("", 2), "  ");
    assert_eq!(pad("größe", 6), format!("{:>6}", "größe"));
}

#[test]
fn max_width_counts_characters() {
    assert_eq!(max_width(&vec![]), 0);
    assert_eq!(max_width(&vec![("a", "xxxxxxxx"), ("größe", ""), ("abc", "")]), 5);
}

#[test]
fn table_without_colour() {
    assert_eq!(table(&vec![], false), "");
    assert_eq!(table(&vec![("a", "1")], false), "[ a ]: 1");
    assert_eq!(
        table(&vec![("a", "1"), ("long", "2"), ("mid", "")], false),
        "[    a ]: 1\n[ long ]: 2\n[  mid ]: "
    );
}

#[test]
fn table_in_yellow() {
    assert_eq!(
        table(&vec![("a", "1"), ("bc", "two")], true),
        "[  a ]: \u{1b}[33m1\u{1b}[0m\n[ bc ]: \u{1b}[33mtwo\u{1b}[0m"
    );
}

fn expected_summary(values: &[(&str, &str)]) -> String {
    values
        .iter()
        .map(|(name, value)| format!("[ {:>width$} ]: {}", name, value, width = 16))
        .collect::<Vec<String>>()
        .join("\n")
}

#[test]
fn summary_of_a_new_session() {
    let mut config = GlobalConfig::new(None, None);
    config.set_color(false);
    assert_eq!(
        config.summary("1.2.3 (abc)", "yaml", "/home/u"),
        expected_summary(&[
            ("ckb-cli version", "1.2.3 (abc)"),
            ("url", "http://127.0.0.1:8114 (network: unknown)"),
            ("ckb-indexer", "http://127.0.0.1:8116"),
            ("pwd", "/home/u"),
            ("color", "false"),
            ("debug", "false"),
            ("no-sync", "false"),
            ("output format", "yaml"),
            ("completion style", "List"),
            ("edit style", "Emacs"),
        ])
    );
}

#[test]
fn summary_after_changes() {
    let mut config = GlobalConfig::new(None, Some("https://indexer".to_string()));
    config.set_color(false);
    config.set_url("node:8114".to_string());
    config.set_network(Some(NetworkType::Testnet));
    assert_eq!(config.network(), Some(NetworkType::Testnet));
    config.switch_debug();
    config.set_no_sync(true);
    config.switch_completion_style();
    config.switch_edit_style();
    assert_eq!(
        config.summary("v", "json", "/"),
        expected_summary(&[
            ("ckb-cli version", "v"),
            ("url", "http://node:8114 (network: Testnet)"),
            ("ckb-indexer", "https://indexer"),
            ("pwd", "/"),
            ("color", "false"),
            ("debug", "true"),
            ("no-sync", "true"),
            ("output format", "json"),
            ("completion style", "Circular"),
            ("edit style", "Vi"),
        ])
    );
}

#[test]
fn summary_in_colour() {
    let mut config = GlobalConfig::new(None, None);
    config.set_network(Some(NetworkType::Dev));
    let text = config.summary("v", "yaml", "/");
    let lines: Vec<&str> = text.split('\n').collect();
    assert_eq!(lines.len(), 10);
    assert_eq!(lines[0], "[  ckb-cli version ]: \u{1b}[33mv\u{1b}[0m");
    assert_eq!(
        lines[1],
        "[              url ]: \u{1b}[33mhttp://127.0.0.1:8114 (network: Dev)\u{1b}[0m"
    );
    assert_eq!(lines[4], "[            color ]: \u{1b}[33mtrue\u{1b}[0m");
    assert_eq!(lines[8], "[ completion style ]: \u{1b}[33mList\u{1b}[0m");
}

#[test]
fn network_is_kept() {
    let mut config = GlobalConfig::new(None, None);
    assert_eq!(config.network(), None);
    for network in [
        NetworkType::Mainnet,
        NetworkType::Testnet,
        NetworkType::Staging,
        NetworkType::Preview,
        NetworkType::Dev,
    ] {
        config.set_network(Some(network));
        assert_eq!(config.network(), Some(network));
        config.set_color(false);
        let text = config.summary("v", "yaml", "/");
        let expected = format!("[ {:>16} ]: http://127.0.0.1:8114 (network: {:?})", "url", network);
        assert_eq!(text.split('\n').nth(1), Some(expected.as_str()));
    }
    config.set_network(None);
    assert_eq!(config.network(), None);
    assert!(config.color() == false);
}
