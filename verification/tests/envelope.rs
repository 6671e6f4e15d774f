use razer::event::event_type::Event;
use razer::envelope::{escape_data, frame};

/// Reads a frame as JSON and gives the strings under `name` and `data`.
fn receive(text: &str) -> (String, String) {
    let value: serde_json::Value = serde_json::from_str(text).unwrap();
    (
        value["name"].as_str().unwrap().to_owned(),
        value["data"].as_str().unwrap().to_owned(),
    )
}

#[test]
fn kinds_have_their_wire_names() {
    assert_eq!(Event::JS.to_string(), "js");
    assert_eq!(Event::HTML.to_string(), "html");
}

#[test]
fn frame_of_markup_is_spelled_out() {
    let text = frame(Event::HTML, "<p>hi</p>");
    assert_eq!(text, "{\"name\":\"html\",\"data\":\"<p>hi</p>\"}");
}

#[test]
fn frame_of_script_is_spelled_out() {
    let text = frame(Event::JS, "alert(1)");
    assert_eq!(text, "{\"name\":\"js\",\"data\":\"alert(1)\"}");
}

#[test]
fn frame_of_nothing_is_spelled_out() {
    assert_eq!(frame(Event::JS, ""), "{\"name\":\"js\",\"data\":\"\"}");
}

#[test]
fn quotes_get_a_backslash() {
    assert_eq!(escape_data("alert(\"Hello\")"), "alert(\\\"Hello\\\")");
}

#[test]
fn text_without_quotes_is_left_alone() {
    assert_eq!(escape_data("<p>hi</p>"), "<p>hi</p>");
    assert_eq!(escape_data(""), "");
}

#[test]
fn every_quote_is_escaped() {
    assert_eq!(escape_data("\"\"\""), "\\\"\\\"\\\"");
}

#[test]
fn characters_beyond_ascii_pass() {
    assert_eq!(escape_data("caf\u{e9} \"\u{1F600}\""), "caf\u{e9} \\\"\u{1F600}\\\"");
}

#[test]
fn quoted_data_comes_back_unchanged() {
    let data = "document.getElementById(\"text\").innerHTML = \"<p>hi</p>\"";
    let (name, back) = receive(&frame(Event::JS, data));
    assert_eq!(name, "js");
    assert_eq!(back, data);
}

#[test]
fn a_lone_quote_comes_back_unchanged() {
    let (name, back) = receive(&frame(Event::HTML, "\""));
    assert_eq!(name, "html");
    assert_eq!(back, "\"");
}

#[test]
fn receiver_sees_name_and_data() {
    let received: serde_json::Value =
        serde_json::from_str(&frame(Event::HTML, "<p>hi</p>")).unwrap();
    let object = received.as_object().unwrap();
    assert_eq!(object.len(), 2);
    assert_eq!(received["name"], "html");
    assert_eq!(received["data"], "<p>hi</p>");
}

#[test]
fn a_backslash_in_the_data_is_doubled() {
    assert_eq!(escape_data("a\\b"), "a\\\\b");
    assert_eq!(frame(Event::JS, "\\"), "{\"name\":\"js\",\"data\":\"\\\\\"}");
}

#[test]
fn backslash_then_quote_does_not_end_the_data_early() {
    let data = "\\\"";
    assert_eq!(escape_data(data), "\\\\\\\"");
    let (name, back) = receive(&frame(Event::JS, data));
    assert_eq!(name, "js");
    assert_eq!(back, data);
}

#[test]
fn data_with_a_backslash_comes_back() {
    for data in ["\\", "a\\nb", "\\\\", "\\\"", "x\\u0041", "C:\\dir\\\"file\""] {
        let (name, back) = receive(&frame(Event::JS, data));
        assert_eq!(name, "js");
        assert_eq!(back, data);
    }
}

#[test]
fn control_characters_are_written_as_escapes() {
    assert_eq!(escape_data("\u{8}\u{c}\n\r\t"), "\\b\\f\\n\\r\\t");
    assert_eq!(escape_data("\u{0}"), "\\u0000");
    assert_eq!(escape_data("\u{1}"), "\\u0001");
    assert_eq!(escape_data("\u{b}"), "\\u000b");
    assert_eq!(escape_data("\u{1b}"), "\\u001b");
    assert_eq!(escape_data("\u{1f}"), "\\u001f");
    assert_eq!(escape_data(" \u{7f}"), " \u{7f}");
}

#[test]
fn data_with_a_control_character_comes_back() {
    let (name, back) = receive(&frame(Event::HTML, "line\nbreak"));
    assert_eq!(name, "html");
    assert_eq!(back, "line\nbreak");
}

#[test]
fn every_control_character_comes_back() {
    for code in 0u32..0x20 {
        let c = char::from_u32(code).unwrap();
        let data = format!("a{}\"{}\\", c, c);
        let (_, back) = receive(&frame(Event::JS, &data));
        assert_eq!(back, data);
    }
}

#[test]
fn escaping_agrees_with_the_json_writer() {
    for data in ["", "plain", "\"", "\\", "\u{0}\u{1f}\u{7f}", "a\tb\nc", "caf\u{e9} \u{1F600}"] {
        let written = serde_json::to_string(data).unwrap();
        assert_eq!(format!("\"{}\"", escape_data(data)), written);
    }
}
