use std::cell::RefCell;

use razer::connections::{Endpoint, Registry};
use razer::event::handler::{dispatch, EventHandler};
use razer::event::inbound::{route, sort, Inbound, Outcome};
use razer::event::kind::{classify, EventKind};
use razer::listener::{Phase, Server};
use razer::Value;

const NAMES: [&str; 85] = [
    "abort", "afterprint", "animationend", "animationiteration", "animationstart", "beforeprint",
    "beforeunload", "blur", "canplay", "canplaythrough", "change", "click", "contextmenu", "copy",
    "cut", "dblclick", "drag", "dragend", "dragenter", "dragleave", "dragover", "dragstart",
    "drop", "durationchange", "ended", "error", "focus", "focusin", "focusout",
    "fullscreenchange", "fullscreenerror", "hashchange", "input", "invalid", "keydown",
    "keypress", "keyup", "load", "loadeddata", "loadedmetadata", "loadstart", "message",
    "mousedown", "mouseenter", "mouseleave", "mousemove", "mouseover", "mouseout", "mouseup",
    "mousewheel", "offline", "online", "open", "pagehide", "pageshow", "paste", "pause", "play",
    "playing", "popstate", "progress", "ratechange", "resize", "reset", "scroll", "search",
    "seeked", "seeking", "select", "show", "stalled", "storage", "submit", "suspend",
    "timeupdate", "toggle", "touchcancel", "touchend", "touchmove", "touchstart",
    "transitionend", "unload", "volumechange", "waiting", "wheel",
];

fn json(text: &str) -> Value {
    serde_json::from_str(text).unwrap()
}

/// A handler that overrides nothing.
struct Quiet;

impl EventHandler for Quiet {}

/// A handler that notes what three of its methods were called with.
struct Noting {
    calls: RefCell<Vec<(&'static str, Value, Endpoint)>>,
}

impl Noting {
    fn new() -> Noting {
        Noting { calls: RefCell::new(Vec::new()) }
    }
}

impl EventHandler for Noting {
    fn click(&self, event: Value, ctx: &Endpoint) {
        self.calls.borrow_mut().push(("click", event, *ctx));
    }

    fn keydown(&self, event: Value, ctx: &Endpoint) {
        self.calls.borrow_mut().push(("keydown", event, *ctx));
    }

    fn wheel(&self, event: Value, ctx: &Endpoint) {
        self.calls.borrow_mut().push(("wheel", event, *ctx));
    }
}

#[test]
fn every_known_name_is_classified_as_itself() {
    let mut seen: Vec<EventKind> = Vec::new();
    for name in NAMES {
        let kind = classify(name).unwrap();
        assert_eq!(kind.as_str(), name);
        assert!(!seen.contains(&kind));
        seen.push(kind);
    }
    assert_eq!(seen.len(), 85);
}

#[test]
fn some_names_by_hand() {
    assert_eq!(classify("keydown"), Some(EventKind::Keydown));
    assert_eq!(classify("abort"), Some(EventKind::Abort));
    assert_eq!(classify("wheel"), Some(EventKind::Wheel));
    assert_eq!(classify("mouseout"), Some(EventKind::Mouseout));
    assert_eq!(classify("mouseover"), Some(EventKind::Mouseover));
}

#[test]
fn other_names_are_not_known() {
    assert_eq!(classify(""), None);
    assert_eq!(classify("Click"), None);
    assert_eq!(classify("click "), None);
    assert_eq!(classify("eval"), None);
    assert_eq!(classify("keydow"), None);
    assert_eq!(classify("keydownn"), None);
}

#[test]
fn known_event_is_routed_with_what_came_along() {
    let inbound = route("{\"event_name\":\"keydown\",\"event\":{\"key\":\"Enter\"}}");
    assert_eq!(
        inbound,
        Inbound::Known { kind: EventKind::Keydown, event: json("{\"key\":\"Enter\"}") }
    );
}

#[test]
fn event_without_anything_along_carries_null() {
    let inbound = route("{\"event_name\":\"load\"}");
    assert_eq!(inbound, Inbound::Known { kind: EventKind::Load, event: Value::Null });
}

#[test]
fn unknown_event_is_no_error() {
    assert_eq!(route("{\"event_name\":\"eval\",\"event\":1}"), Inbound::Unknown);
    assert_eq!(sort("eval", Value::Null), Inbound::Unknown);
}

#[test]
fn sorting_keeps_what_came_along() {
    assert_eq!(
        sort("click", json("[1,2]")),
        Inbound::Known { kind: EventKind::Click, event: json("[1,2]") }
    );
}

#[test]
fn frames_that_are_no_envelope_are_malformed() {
    assert_eq!(route(""), Inbound::Malformed);
    assert_eq!(route("keydown"), Inbound::Malformed);
    assert_eq!(route("{\"event_name\":\"keydown\""), Inbound::Malformed);
    assert_eq!(route("[\"keydown\"]"), Inbound::Malformed);
    assert_eq!(route("\"keydown\""), Inbound::Malformed);
    assert_eq!(route("{\"event\":{}}"), Inbound::Malformed);
    assert_eq!(route("{\"event_name\":7,\"event\":{}}"), Inbound::Malformed);
    assert_eq!(route("{\"event_name\":null}"), Inbound::Malformed);
}

#[test]
fn name_is_read_under_its_own_key_only() {
    assert_eq!(route("{\"event\":\"keydown\",\"event_name\":{\"x\":1}}"), Inbound::Malformed);
    assert_eq!(route("{\"name\":\"keydown\",\"event\":{}}"), Inbound::Malformed);
    assert_eq!(route("{\"Event_Name\":\"keydown\",\"event\":{}}"), Inbound::Malformed);
    assert_eq!(
        route("{\"event\":\"click\",\"event_name\":\"keydown\"}"),
        Inbound::Known { kind: EventKind::Keydown, event: json("\"click\"") }
    );
}

#[test]
fn what_came_along_is_read_under_its_own_key_only() {
    assert_eq!(
        route("{\"event_name\":\"click\",\"data\":{\"x\":1},\"Event\":2}"),
        Inbound::Known { kind: EventKind::Click, event: Value::Null }
    );
}

#[test]
fn dispatch_calls_the_method_of_the_kind() {
    let handler = Noting::new();
    let origin = Endpoint { token: 4, connection_id: 9 };
    dispatch(&handler, EventKind::Click, json("{\"x\":1}"), &origin);
    dispatch(&handler, EventKind::Wheel, Value::Null, &origin);
    dispatch(&handler, EventKind::Scroll, Value::Null, &origin);
    let calls = handler.calls.borrow();
    assert_eq!(calls.len(), 2);
    assert_eq!(calls[0], ("click", json("{\"x\":1}"), origin));
    assert_eq!(calls[1], ("wheel", Value::Null, origin));
}

#[test]
fn dispatch_of_every_kind_to_a_quiet_handler_does_nothing() {
    let origin = Endpoint { token: 1, connection_id: 1 };
    for name in NAMES {
        dispatch(&Quiet, classify(name).unwrap(), Value::Null, &origin);
    }
}

#[test]
fn message_reaches_the_handler_with_its_origin() {
    let origin = Endpoint { token: 2, connection_id: 6 };
    let server = Server::new(origin, Noting::new());
    let outcome = server.on_message("{\"event_name\":\"keydown\",\"event\":{\"key\":\"a\"}}");
    assert_eq!(outcome, Outcome::Handled(EventKind::Keydown));
    assert_eq!(
        server.on_message("{\"event_name\":\"blur\",\"event\":{}}"),
        Outcome::Handled(EventKind::Blur)
    );
    assert_eq!(server.on_message("{\"event_name\":\"nothing\",\"event\":{}}"), Outcome::Ignored);
    assert_eq!(server.on_message("nothing"), Outcome::Dropped);
}

#[test]
fn keydown_without_an_override_is_a_silent_no_op() {
    let mut registry = Registry::new();
    let origin = Endpoint { token: 1, connection_id: 1 };
    let other = Endpoint { token: 2, connection_id: 2 };
    registry.register(other);
    let mut server = Server::new(origin, Quiet);
    server.on_open(&mut registry);
    let before = registry.snapshot().len();
    let outcome = server.on_message("{\"event_name\":\"keydown\",\"event\":{\"key\":\"Enter\"}}");
    assert_eq!(outcome, Outcome::Handled(EventKind::Keydown));
    assert_eq!(registry.len(), before);
    assert_eq!(registry.resolve(1), Some(origin));
    assert_eq!(registry.resolve(2), Some(other));
    assert_eq!(server.phase(), Phase::Open);
}

#[test]
fn malformed_frame_is_dropped_and_the_connection_goes_on() {
    let mut registry = Registry::new();
    let origin = Endpoint { token: 1, connection_id: 1 };
    let mut server = Server::new(origin, Noting::new());
    server.on_open(&mut registry);
    assert_eq!(server.on_message("{not json"), Outcome::Dropped);
    assert_eq!(server.on_message("{\"event\":{}}"), Outcome::Dropped);
    assert!(registry.is_open(1));
    assert_eq!(server.phase(), Phase::Open);
    assert_eq!(
        server.on_message("{\"event_name\":\"click\",\"event\":{\"x\":3}}"),
        Outcome::Handled(EventKind::Click)
    );
    assert!(registry.is_open(1));
}
