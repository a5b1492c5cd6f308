use clutch::config::config_path;
use clutch::render::Message;
use clutch::render::compose_screen;
use clutch::render::format_line;
use clutch::render::format_window;

fn msg(date: &str, from: Option<&str>, body: &str) -> Message {
    Message {
        date: date.to_string(),
        from: from.map(|s| s.to_string()),
        body: body.to_string(),
    }
}

#[test]
fn line_has_stamp_sender_body() {
    let line = format_line("01/02 03:04", "alice", "hello there");
    assert_eq!(line, "[01/02 03:04] [alice]: hello there");
}

#[test]
fn window_of_twenty_shows_last_fifteen_oldest_first() {
    // The dates do not parse as RFC 3339, so each line shows them raw and
    // the whole output is fixed.
    let messages: Vec<Message> = (1..=20)
        .map(|i| {
            msg(
                &format!("d{:02}", i),
                Some(&format!("s{:02}", i)),
                &format!("m{:02}", i),
            )
        })
        .collect();
    let text = format_window(&messages);
    let lines: Vec<&str> = text.split("\r\n").collect();
    assert_eq!(lines.len(), 15);
    for (k, line) in lines.iter().enumerate() {
        let i = k + 6;  // messages 6 through 20, 1-indexed
        assert_eq!(*line, format!("[d{:02}] [s{:02}]: m{:02}", i, i, i));
    }
}

#[test]
fn window_under_limit_shows_all_in_order() {
    let messages = vec![
        msg("bad-a", Some("ann"), "first"),
        msg("bad-b", None, "second"),
        msg("bad-c", Some("cam"), "third"),
    ];
    let text = format_window(&messages);
    assert_eq!(
        text,
        "[bad-a] [ann]: first\r\n[bad-b] [Unknown]: second\r\n[bad-c] [cam]: third"
    );
}

#[test]
fn window_of_exactly_fifteen_keeps_all() {
    let messages: Vec<Message> =
        (1..=15).map(|i| msg("x", Some("s"), &format!("m{}", i))).collect();
    let text = format_window(&messages);
    assert_eq!(text.split("\r\n").count(), 15);
    assert!(text.starts_with("[x] [s]: m1\r\n"));
    assert!(text.ends_with("[x] [s]: m15"));
}

#[test]
fn empty_history_renders_empty() {
    let messages: Vec<Message> = Vec::new();
    assert_eq!(format_window(&messages), "");
}

#[test]
fn missing_sender_shows_sentinel() {
    let messages = vec![msg("nodate", None, "anon speaks")];
    assert_eq!(format_window(&messages), "[nodate] [Unknown]: anon speaks");
}

#[test]
fn valid_timestamp_is_localized_not_raw() {
    let raw = "2021-03-04T05:06:07+00:00";
    let messages = vec![msg(raw, Some("bob"), "hi")];
    let text = format_window(&messages);
    let open = text.find('[').unwrap();
    let close = text.find(']').unwrap();
    let stamp = &text[open + 1..close];
    // "%m/%d %H:%M" renders as exactly eleven characters with a slash,
    // never the twenty-five-character raw form.
    assert_ne!(stamp, raw);
    assert_eq!(stamp.len(), 11);
    assert_eq!(stamp.as_bytes()[2], b'/');
    assert_eq!(stamp.as_bytes()[5], b' ');
    assert_eq!(stamp.as_bytes()[8], b':');
}

#[test]
fn repeated_render_of_same_fetch_is_identical() {
    let messages = vec![
        msg("2021-03-04T05:06:07+00:00", Some("bob"), "hi"),
        msg("2021-03-04T05:07:07+00:00", None, "again"),
    ];
    let first = format_window(&messages);
    let second = format_window(&messages);
    assert_eq!(first, second);
}

#[test]
fn screen_wraps_history_with_separator_and_prompt() {
    let screen = compose_screen("[d] [s]: m");
    assert_eq!(
        screen,
        "[d] [s]: m\r\n ------------------------------------------------------------ \r\n> "
    );
}

#[test]
fn config_path_prefers_passed_argument() {
    assert_eq!(config_path(Some("elsewhere.toml".to_string())), "elsewhere.toml");
    assert_eq!(config_path(None), "clutch.toml");
}
