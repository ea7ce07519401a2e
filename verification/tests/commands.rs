use feed_relay::command::{
    account_to_default_nitter_rss_url, feed_url_of, parse_command, started_text, stopped_text,
    Command, CommandError,
};

#[test]
fn parse_command_reads_a_subscription() {
    assert_eq!(parse_command(Some("bob")), Ok(Command::Add("bob".to_string())));
    assert_eq!(
        parse_command(Some("  https://nitter.net/bob/rss  ignored")),
        Ok(Command::Add("https://nitter.net/bob/rss".to_string()))
    );
    assert_eq!(parse_command(Some("removed bob")), Ok(Command::Add("removed".to_string())));
    assert_eq!(parse_command(Some("Remove bob")), Ok(Command::Add("Remove".to_string())));
}

#[test]
fn parse_command_reads_a_removal() {
    assert_eq!(parse_command(Some("remove bob")), Ok(Command::Remove("bob".to_string())));
    assert_eq!(
        parse_command(Some("\tremove \u{3000} bob\nalice")),
        Ok(Command::Remove("bob".to_string()))
    );
}

#[test]
fn parse_command_needs_a_word() {
    assert_eq!(parse_command(None), Err(CommandError::NoText));
    assert_eq!(parse_command(Some("")), Err(CommandError::NoText));
    assert_eq!(parse_command(Some(" \t\n")), Err(CommandError::NoText));
}

#[test]
fn parse_command_needs_an_account_to_remove() {
    assert_eq!(parse_command(Some("remove")), Err(CommandError::InvalidInput));
    assert_eq!(parse_command(Some("remove   ")), Err(CommandError::InvalidInput));
}

#[test]
fn feed_url_of_takes_an_address_as_it_is() {
    let url = feed_url_of("https://nitter.net/bob/rss", None).unwrap();
    assert_eq!(url.as_str(), "https://nitter.net/bob/rss");
    let url = feed_url_of("https://nitter.net/bob/rss", Some("https://other.org/")).unwrap();
    assert_eq!(url.as_str(), "https://nitter.net/bob/rss");
}

#[test]
fn feed_url_of_looks_for_an_account_on_the_default_mirror() {
    let url = feed_url_of("bob", Some("https://nitter.net/")).unwrap();
    assert_eq!(url.as_str(), "https://nitter.net/bob/rss");
}

#[test]
fn feed_url_of_needs_a_default_mirror_for_an_account() {
    assert_eq!(feed_url_of("bob", None), Err(CommandError::NoDefaultMirror));
}

#[test]
fn feed_url_of_needs_a_default_mirror_that_is_an_address() {
    assert_eq!(feed_url_of("bob", Some("nitter.net")), Err(CommandError::InvalidInput));
}

#[test]
fn account_to_default_nitter_rss_url_appends_the_feed() {
    let url = account_to_default_nitter_rss_url("https://nitter.net", "bob").unwrap();
    assert_eq!(url.as_str(), "https://nitter.net/bob/rss");
    assert_eq!(
        account_to_default_nitter_rss_url("", "bob"),
        Err(CommandError::InvalidInput)
    );
}

#[test]
fn answers_name_the_account() {
    assert_eq!(started_text("bob"), "@bob の収集を開始します。");
    assert_eq!(stopped_text("bob"), "@bob の収集を停止します。");
}

#[test]
fn parse_command_splits_at_every_kind_of_white_space() {
    let spaces = [
        '\u{9}', '\u{a}', '\u{b}', '\u{c}', '\u{d}', ' ', '\u{85}', '\u{a0}', '\u{1680}',
        '\u{2000}', '\u{2005}', '\u{200a}', '\u{2028}', '\u{2029}', '\u{202f}', '\u{205f}',
        '\u{3000}',
    ];
    for space in spaces {
        let text = format!("remove{space}bob{space}");
        assert_eq!(parse_command(Some(&text)), Ok(Command::Remove("bob".to_string())));
    }
    let others = ['\u{200b}', '\u{180e}', '\u{feff}', '_'];
    for other in others {
        let text = format!("remove{other}bob");
        assert_eq!(parse_command(Some(&text)), Ok(Command::Add(text.clone())));
    }
}
