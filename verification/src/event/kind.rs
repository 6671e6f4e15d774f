//! The browser events that the router knows, each by the name under which
//! the browser reports it.

use vstd::prelude::*;

use crate::text::same_text;

verus! {

/// A browser event that has a handler of its own.
#[derive(Debug, Clone, Copy, PartialEq, Eq, Structural)]
pub enum EventKind {
    Abort,
    Afterprint,
    Animationend,
    Animationiteration,
    Animationstart,
    Beforeprint,
    Beforeunload,
    Blur,
    Canplay,
    Canplaythrough,
    Change,
    Click,
    Contextmenu,
    Copy,
    Cut,
    Dblclick,
    Drag,
    Dragend,
    Dragenter,
    Dragleave,
    Dragover,
    Dragstart,
    Drop,
    Durationchange,
    Ended,
    Error,
    Focus,
    Focusin,
    Focusout,
    Fullscreenchange,
    Fullscreenerror,
    Hashchange,
    Input,
    Invalid,
    Keydown,
    Keypress,
    Keyup,
    Load,
    Loadeddata,
    Loadedmetadata,
    Loadstart,
    Message,
    Mousedown,
    Mouseenter,
    Mouseleave,
    Mousemove,
    Mouseover,
    Mouseout,
    Mouseup,
    Mousewheel,
    Offline,
    Online,
    Open,
    Pagehide,
    Pageshow,
    Paste,
    Pause,
    Play,
    Playing,
    Popstate,
    Progress,
    Ratechange,
    Resize,
    Reset,
    Scroll,
    Search,
    Seeked,
    Seeking,
    Select,
    Show,
    Stalled,
    Storage,
    Submit,
    Suspend,
    Timeupdate,
    Toggle,
    Touchcancel,
    Touchend,
    Touchmove,
    Touchstart,
    Transitionend,
    Unload,
    Volumechange,
    Waiting,
    Wheel,
}

impl EventKind {
    /// The name under which the browser reports the event.
    pub open spec fn name(self) -> Seq<char> {
        match self {
            EventKind::Abort => "abort"@,
            EventKind::Afterprint => "afterprint"@,
            EventKind::Animationend => "animationend"@,
            EventKind::Animationiteration => "animationiteration"@,
            EventKind::Animationstart => "animationstart"@,
            EventKind::Beforeprint => "beforeprint"@,
            EventKind::Beforeunload => "beforeunload"@,
            EventKind::Blur => "blur"@,
            EventKind::Canplay => "canplay"@,
            EventKind::Canplaythrough => "canplaythrough"@,
            EventKind::Change => "change"@,
            EventKind::Click => "click"@,
            EventKind::Contextmenu => "contextmenu"@,
            EventKind::Copy => "copy"@,
            EventKind::Cut => "cut"@,
            EventKind::Dblclick => "dblclick"@,
            EventKind::Drag => "drag"@,
            EventKind::Dragend => "dragend"@,
            EventKind::Dragenter => "dragenter"@,
            EventKind::Dragleave => "dragleave"@,
            EventKind::Dragover => "dragover"@,
            EventKind::Dragstart => "dragstart"@,
            EventKind::Drop => "drop"@,
            EventKind::Durationchange => "durationchange"@,
            EventKind::Ended => "ended"@,
            EventKind::Error => "error"@,
            EventKind::Focus => "focus"@,
            EventKind::Focusin => "focusin"@,
            EventKind::Focusout => "focusout"@,
            EventKind::Fullscreenchange => "fullscreenchange"@,
            EventKind::Fullscreenerror => "fullscreenerror"@,
            EventKind::Hashchange => "hashchange"@,
            EventKind::Input => "input"@,
            EventKind::Invalid => "invalid"@,
            EventKind::Keydown => "keydown"@,
            EventKind::Keypress => "keypress"@,
            EventKind::Keyup => "keyup"@,
            EventKind::Load => "load"@,
            EventKind::Loadeddata => "loadeddata"@,
            EventKind::Loadedmetadata => "loadedmetadata"@,
            EventKind::Loadstart => "loadstart"@,
            EventKind::Message => "message"@,
            EventKind::Mousedown => "mousedown"@,
            EventKind::Mouseenter => "mouseenter"@,
            EventKind::Mouseleave => "mouseleave"@,
            EventKind::Mousemove => "mousemove"@,
            EventKind::Mouseover => "mouseover"@,
            EventKind::Mouseout => "mouseout"@,
            EventKind::Mouseup => "mouseup"@,
            EventKind::Mousewheel => "mousewheel"@,
            EventKind::Offline => "offline"@,
            EventKind::Online => "online"@,
            EventKind::Open => "open"@,
            EventKind::Pagehide => "pagehide"@,
            EventKind::Pageshow => "pageshow"@,
            EventKind::Paste => "paste"@,
            EventKind::Pause => "pause"@,
            EventKind::Play => "play"@,
            EventKind::Playing => "playing"@,
            EventKind::Popstate => "popstate"@,
            EventKind::Progress => "progress"@,
            EventKind::Ratechange => "ratechange"@,
            EventKind::Resize => "resize"@,
            EventKind::Reset => "reset"@,
            EventKind::Scroll => "scroll"@,
            EventKind::Search => "search"@,
            EventKind::Seeked => "seeked"@,
            EventKind::Seeking => "seeking"@,
            EventKind::Select => "select"@,
            EventKind::Show => "show"@,
            EventKind::Stalled => "stalled"@,
            EventKind::Storage => "storage"@,
            EventKind::Submit => "submit"@,
            EventKind::Suspend => "suspend"@,
            EventKind::Timeupdate => "timeupdate"@,
            EventKind::Toggle => "toggle"@,
            EventKind::Touchcancel => "touchcancel"@,
            EventKind::Touchend => "touchend"@,
            EventKind::Touchmove => "touchmove"@,
            EventKind::Touchstart => "touchstart"@,
            EventKind::Transitionend => "transitionend"@,
            EventKind::Unload => "unload"@,
            EventKind::Volumechange => "volumechange"@,
            EventKind::Waiting => "waiting"@,
            EventKind::Wheel => "wheel"@,
        }
    }

    /// The name under which the browser reports the event.
    pub fn as_str(&self) -> (text: &'static str)
        ensures
            text@ == self.name(),
    {
        match self {
            EventKind::Abort => "abort",
            EventKind::Afterprint => "afterprint",
            EventKind::Animationend => "animationend",
            EventKind::Animationiteration => "animationiteration",
            EventKind::Animationstart => "animationstart",
            EventKind::Beforeprint => "beforeprint",
            EventKind::Beforeunload => "beforeunload",
            EventKind::Blur => "blur",
            EventKind::Canplay => "canplay",
            EventKind::Canplaythrough => "canplaythrough",
            EventKind::Change => "change",
            EventKind::Click => "click",
            EventKind::Contextmenu => "contextmenu",
            EventKind::Copy => "copy",
            EventKind::Cut => "cut",
            EventKind::Dblclick => "dblclick",
            EventKind::Drag => "drag",
            EventKind::Dragend => "dragend",
            EventKind::Dragenter => "dragenter",
            EventKind::Dragleave => "dragleave",
            EventKind::Dragover => "dragover",
            EventKind::Dragstart => "dragstart",
            EventKind::Drop => "drop",
            EventKind::Durationchange => "durationchange",
            EventKind::Ended => "ended",
            EventKind::Error => "error",
            EventKind::Focus => "focus",
            EventKind::Focusin => "focusin",
            EventKind::Focusout => "focusout",
            EventKind::Fullscreenchange => "fullscreenchange",
            EventKind::Fullscreenerror => "fullscreenerror",
            EventKind::Hashchange => "hashchange",
            EventKind::Input => "input",
            EventKind::Invalid => "invalid",
            EventKind::Keydown => "keydown",
            EventKind::Keypress => "keypress",
            EventKind::Keyup => "keyup",
            EventKind::Load => "load",
            EventKind::Loadeddata => "loadeddata",
            EventKind::Loadedmetadata => "loadedmetadata",
            EventKind::Loadstart => "loadstart",
            EventKind::Message => "message",
            EventKind::Mousedown => "mousedown",
            EventKind::Mouseenter => "mouseenter",
            EventKind::Mouseleave => "mouseleave",
            EventKind::Mousemove => "mousemove",
            EventKind::Mouseover => "mouseover",
            EventKind::Mouseout => "mouseout",
            EventKind::Mouseup => "mouseup",
            EventKind::Mousewheel => "mousewheel",
            EventKind::Offline => "offline",
            EventKind::Online => "online",
            EventKind::Open => "open",
            EventKind::Pagehide => "pagehide",
            EventKind::Pageshow => "pageshow",
            EventKind::Paste => "paste",
            EventKind::Pause => "pause",
            EventKind::Play => "play",
            EventKind::Playing => "playing",
            EventKind::Popstate => "popstate",
            EventKind::Progress => "progress",
            EventKind::Ratechange => "ratechange",
            EventKind::Resize => "resize",
            EventKind::Reset => "reset",
            EventKind::Scroll => "scroll",
            EventKind::Search => "search",
            EventKind::Seeked => "seeked",
            EventKind::Seeking => "seeking",
            EventKind::Select => "select",
            EventKind::Show => "show",
            EventKind::Stalled => "stalled",
            EventKind::Storage => "storage",
            EventKind::Submit => "submit",
            EventKind::Suspend => "suspend",
            EventKind::Timeupdate => "timeupdate",
            EventKind::Toggle => "toggle",
            EventKind::Touchcancel => "touchcancel",
            EventKind::Touchend => "touchend",
            EventKind::Touchmove => "touchmove",
            EventKind::Touchstart => "touchstart",
            EventKind::Transitionend => "transitionend",
            EventKind::Unload => "unload",
            EventKind::Volumechange => "volumechange",
            EventKind::Waiting => "waiting",
            EventKind::Wheel => "wheel",
        }
    }
}

/// The known event that the browser reports under `name`, if there is one.
pub open spec fn kind_named(name: Seq<char>) -> Option<EventKind> {
    if exists|kind: EventKind| #[trigger] kind.name() == name {
        Some(choose|kind: EventKind| #[trigger] kind.name() == name)
    } else {
        None
    }
}

/// Looks an event name up among the known events. A name that no known
/// event has gives `None`.
pub fn classify(name: &str) -> (kind: Option<EventKind>)
    ensures
        kind == kind_named(name@),
        forall|known: EventKind| #[trigger] known.name() == name@ <==> kind == Some(known),
{
    let kind = lookup(name);
    proof {
        assert forall|known: EventKind| #[trigger] known.name() == name@ implies kind == Some(
            known,
        ) by {
            lemma_names_distinct(kind.unwrap(), known);
        }
        if let Some(found) = kind {
            lemma_names_distinct(found, kind_named(name@).unwrap());
        }
    }
    kind
}

/// Compares `name` with the name of each known event in turn.
fn lookup(name: &str) -> (kind: Option<EventKind>)
    ensures
        match kind {
            Some(found) => found.name() == name@,
            None => forall|other: EventKind| #[trigger] other.name() != name@,
        },
{
    if same_text(name, "abort") {
        Some(EventKind::Abort)
    } else if same_text(name, "afterprint") {
        Some(EventKind::Afterprint)
    } else if same_text(name, "animationend") {
        Some(EventKind::Animationend)
    } else if same_text(name, "animationiteration") {
        Some(EventKind::Animationiteration)
    } else if same_text(name, "animationstart") {
        Some(EventKind::Animationstart)
    } else if same_text(name, "beforeprint") {
        Some(EventKind::Beforeprint)
    } else if same_text(name, "beforeunload") {
        Some(EventKind::Beforeunload)
    } else if same_text(name, "blur") {
        Some(EventKind::Blur)
    } else if same_text(name, "canplay") {
        Some(EventKind::Canplay)
    } else if same_text(name, "canplaythrough") {
        Some(EventKind::Canplaythrough)
    } else if same_text(name, "change") {
        Some(EventKind::Change)
    } else if same_text(name, "click") {
        Some(EventKind::Click)
    } else if same_text(name, "contextmenu") {
        Some(EventKind::Contextmenu)
    } else if same_text(name, "copy") {
        Some(EventKind::Copy)
    } else if same_text(name, "cut") {
        Some(EventKind::Cut)
    } else if same_text(name, "dblclick") {
        Some(EventKind::Dblclick)
    } else if same_text(name, "drag") {
        Some(EventKind::Drag)
    } else if same_text(name, "dragend") {
        Some(EventKind::Dragend)
    } else if same_text(name, "dragenter") {
        Some(EventKind::Dragenter)
    } else if same_text(name, "dragleave") {
        Some(EventKind::Dragleave)
    } else if same_text(name, "dragover") {
        Some(EventKind::Dragover)
    } else if same_text(name, "dragstart") {
        Some(EventKind::Dragstart)
    } else if same_text(name, "drop") {
        Some(EventKind::Drop)
    } else if same_text(name, "durationchange") {
        Some(EventKind::Durationchange)
    } else if same_text(name, "ended") {
        Some(EventKind::Ended)
    } else if same_text(name, "error") {
        Some(EventKind::Error)
    } else if same_text(name, "focus") {
        Some(EventKind::Focus)
    } else if same_text(name, "focusin") {
        Some(EventKind::Focusin)
    } else if same_text(name, "focusout") {
        Some(EventKind::Focusout)
    } else if same_text(name, "fullscreenchange") {
        Some(EventKind::Fullscreenchange)
    } else if same_text(name, "fullscreenerror") {
        Some(EventKind::Fullscreenerror)
    } else if same_text(name, "hashchange") {
        Some(EventKind::Hashchange)
    } else if same_text(name, "input") {
        Some(EventKind::Input)
    } else if same_text(name, "invalid") {
        Some(EventKind::Invalid)
    } else if same_text(name, "keydown") {
        Some(EventKind::Keydown)
    } else if same_text(name, "keypress") {
        Some(EventKind::Keypress)
    } else if same_text(name, "keyup") {
        Some(EventKind::Keyup)
    } else if same_text(name, "load") {
        Some(EventKind::Load)
    } else if same_text(name, "loadeddata") {
        Some(EventKind::Loadeddata)
    } else if same_text(name, "loadedmetadata") {
        Some(EventKind::Loadedmetadata)
    } else if same_text(name, "loadstart") {
        Some(EventKind::Loadstart)
    } else if same_text(name, "message") {
        Some(EventKind::Message)
    } else if same_text(name, "mousedown") {
        Some(EventKind::Mousedown)
    } else if same_text(name, "mouseenter") {
        Some(EventKind::Mouseenter)
    } else if same_text(name, "mouseleave") {
        Some(EventKind::Mouseleave)
    } else if same_text(name, "mousemove") {
        Some(EventKind::Mousemove)
    } else if same_text(name, "mouseover") {
        Some(EventKind::Mouseover)
    } else if same_text(name, "mouseout") {
        Some(EventKind::Mouseout)
    } else if same_text(name, "mouseup") {
        Some(EventKind::Mouseup)
    } else if same_text(name, "mousewheel") {
        Some(EventKind::Mousewheel)
    } else if same_text(name, "offline") {
        Some(EventKind::Offline)
    } else if same_text(name, "online") {
        Some(EventKind::Online)
    } else if same_text(name, "open") {
        Some(EventKind::Open)
    } else if same_text(name, "pagehide") {
        Some(EventKind::Pagehide)
    } else if same_text(name, "pageshow") {
        Some(EventKind::Pageshow)
    } else if same_text(name, "paste") {
        Some(EventKind::Paste)
    } else if same_text(name, "pause") {
        Some(EventKind::Pause)
    } else if same_text(name, "play") {
        Some(EventKind::Play)
    } else if same_text(name, "playing") {
        Some(EventKind::Playing)
    } else if same_text(name, "popstate") {
        Some(EventKind::Popstate)
    } else if same_text(name, "progress") {
        Some(EventKind::Progress)
    } else if same_text(name, "ratechange") {
        Some(EventKind::Ratechange)
    } else if same_text(name, "resize") {
        Some(EventKind::Resize)
    } else if same_text(name, "reset") {
        Some(EventKind::Reset)
    } else if same_text(name, "scroll") {
        Some(EventKind::Scroll)
    } else if same_text(name, "search") {
        Some(EventKind::Search)
    } else if same_text(name, "seeked") {
        Some(EventKind::Seeked)
    } else if same_text(name, "seeking") {
        Some(EventKind::Seeking)
    } else if same_text(name, "select") {
        Some(EventKind::Select)
    } else if same_text(name, "show") {
        Some(EventKind::Show)
    } else if same_text(name, "stalled") {
        Some(EventKind::Stalled)
    } else if same_text(name, "storage") {
        Some(EventKind::Storage)
    } else if same_text(name, "submit") {
        Some(EventKind::Submit)
    } else if same_text(name, "suspend") {
        Some(EventKind::Suspend)
    } else if same_text(name, "timeupdate") {
        Some(EventKind::Timeupdate)
    } else if same_text(name, "toggle") {
        Some(EventKind::Toggle)
    } else if same_text(name, "touchcancel") {
        Some(EventKind::Touchcancel)
    } else if same_text(name, "touchend") {
        Some(EventKind::Touchend)
    } else if same_text(name, "touchmove") {
        Some(EventKind::Touchmove)
    } else if same_text(name, "touchstart") {
        Some(EventKind::Touchstart)
    } else if same_text(name, "transitionend") {
        Some(EventKind::Transitionend)
    } else if same_text(name, "unload") {
        Some(EventKind::Unload)
    } else if same_text(name, "volumechange") {
        Some(EventKind::Volumechange)
    } else if same_text(name, "waiting") {
        Some(EventKind::Waiting)
    } else if same_text(name, "wheel") {
        Some(EventKind::Wheel)
    } else {
        None
    }
}

/// No two known events share a name: the name of an event tells which
/// event it is.
pub proof fn lemma_names_distinct(left: EventKind, right: EventKind)
    requires
        left.name() == right.name(),
    ensures
        left == right,
{
    reveal_strlit("abort");
    reveal_strlit("afterprint");
    reveal_strlit("animationend");
    reveal_strlit("animationiteration");
    reveal_strlit("animationstart");
    reveal_strlit("beforeprint");
    reveal_strlit("beforeunload");
    reveal_strlit("blur");
    reveal_strlit("canplay");
    reveal_strlit("canplaythrough");
    reveal_strlit("change");
    reveal_strlit("click");
    reveal_strlit("contextmenu");
    reveal_strlit("copy");
    reveal_strlit("cut");
    reveal_strlit("dblclick");
    reveal_strlit("drag");
    reveal_strlit("dragend");
    reveal_strlit("dragenter");
    reveal_strlit("dragleave");
    reveal_strlit("dragover");
    reveal_strlit("dragstart");
    reveal_strlit("drop");
    reveal_strlit("durationchange");
    reveal_strlit("ended");
    reveal_strlit("error");
    reveal_strlit("focus");
    reveal_strlit("focusin");
    reveal_strlit("focusout");
    reveal_strlit("fullscreenchange");
    reveal_strlit("fullscreenerror");
    reveal_strlit("hashchange");
    reveal_strlit("input");
    reveal_strlit("invalid");
    reveal_strlit("keydown");
    reveal_strlit("keypress");
    reveal_strlit("keyup");
    reveal_strlit("load");
    reveal_strlit("loadeddata");
    reveal_strlit("loadedmetadata");
    reveal_strlit("loadstart");
    reveal_strlit("message");
    reveal_strlit("mousedown");
    reveal_strlit("mouseenter");
    reveal_strlit("mouseleave");
    reveal_strlit("mousemove");
    reveal_strlit("mouseover");
    reveal_strlit("mouseout");
    reveal_strlit("mouseup");
    reveal_strlit("mousewheel");
    reveal_strlit("offline");
    reveal_strlit("online");
    reveal_strlit("open");
    reveal_strlit("pagehide");
    reveal_strlit("pageshow");
    reveal_strlit("paste");
    reveal_strlit("pause");
    reveal_strlit("play");
    reveal_strlit("playing");
    reveal_strlit("popstate");
    reveal_strlit("progress");
    reveal_strlit("ratechange");
    reveal_strlit("resize");
    reveal_strlit("reset");
    reveal_strlit("scroll");
    reveal_strlit("search");
    reveal_strlit("seeked");
    reveal_strlit("seeking");
    reveal_strlit("select");
    reveal_strlit("show");
    reveal_strlit("stalled");
    reveal_strlit("storage");
    reveal_strlit("submit");
    reveal_strlit("suspend");
    reveal_strlit("timeupdate");
    reveal_strlit("toggle");
    reveal_strlit("touchcancel");
    reveal_strlit("touchend");
    reveal_strlit("touchmove");
    reveal_strlit("touchstart");
    reveal_strlit("transitionend");
    reveal_strlit("unload");
    reveal_strlit("volumechange");
    reveal_strlit("waiting");
    reveal_strlit("wheel");
    assert(
        "abort"@.len() == 5 && "abort"@[0] == 'a' && "abort"@[1] == 'b' && "abort"@[2] == 'o'
            && "abort"@[3] == 'r' && "abort"@[4] == 't'
    );
    assert(
        "afterprint"@.len() == 10 && "afterprint"@[0] == 'a' && "afterprint"@[1] == 'f'
            && "afterprint"@[2] == 't' && "afterprint"@[3] == 'e' && "afterprint"@[4] == 'r'
            && "afterprint"@[5] == 'p' && "afterprint"@[6] == 'r' && "afterprint"@[7] == 'i'
            && "afterprint"@[8] == 'n' && "afterprint"@[9] == 't'
    );
    assert(
        "animationend"@.len() == 12 && "animationend"@[0] == 'a' && "animationend"@[1] == 'n'
            && "animationend"@[2] == 'i' && "animationend"@[3] == 'm' && "animationend"@[4] == 'a'
            && "animationend"@[5] == 't' && "animationend"@[6] == 'i' && "animationend"@[7] == 'o'
            && "animationend"@[8] == 'n' && "animationend"@[9] == 'e' && "animationend"@[10] == 'n'
            && "animationend"@[11] == 'd'
    );
    assert(
        "animationiteration"@.len() == 18 && "animationiteration"@[0] == 'a'
            && "animationiteration"@[1] == 'n' && "animationiteration"@[2] == 'i'
            && "animationiteration"@[3] == 'm' && "animationiteration"@[4] == 'a'
            && "animationiteration"@[5] == 't' && "animationiteration"@[6] == 'i'
            && "animationiteration"@[7] == 'o' && "animationiteration"@[8] == 'n'
            && "animationiteration"@[9] == 'i' && "animationiteration"@[10] == 't'
            && "animationiteration"@[11] == 'e' && "animationiteration"@[12] == 'r'
            && "animationiteration"@[13] == 'a' && "animationiteration"@[14] == 't'
            && "animationiteration"@[15] == 'i' && "animationiteration"@[16] == 'o'
            && "animationiteration"@[17] == 'n'
    );
    assert(
        "animationstart"@.len() == 14 && "animationstart"@[0] == 'a'
            && "animationstart"@[1] == 'n' && "animationstart"@[2] == 'i'
            && "animationstart"@[3] == 'm' && "animationstart"@[4] == 'a'
            && "animationstart"@[5] == 't' && "animationstart"@[6] == 'i'
            && "animationstart"@[7] == 'o' && "animationstart"@[8] == 'n'
            && "animationstart"@[9] == 's' && "animationstart"@[10] == 't'
            && "animationstart"@[11] == 'a' && "animationstart"@[12] == 'r'
            && "animationstart"@[13] == 't'
    );
    assert(
        "beforeprint"@.len() == 11 && "beforeprint"@[0] == 'b' && "beforeprint"@[1] == 'e'
            && "beforeprint"@[2] == 'f' && "beforeprint"@[3] == 'o' && "beforeprint"@[4] == 'r'
            && "beforeprint"@[5] == 'e' && "beforeprint"@[6] == 'p' && "beforeprint"@[7] == 'r'
            && "beforeprint"@[8] == 'i' && "beforeprint"@[9] == 'n' && "beforeprint"@[10] == 't'
    );
    assert(
        "beforeunload"@.len() == 12 && "beforeunload"@[0] == 'b' && "beforeunload"@[1] == 'e'
            && "beforeunload"@[2] == 'f' && "beforeunload"@[3] == 'o' && "beforeunload"@[4] == 'r'
            && "beforeunload"@[5] == 'e' && "beforeunload"@[6] == 'u' && "beforeunload"@[7] == 'n'
            && "beforeunload"@[8] == 'l' && "beforeunload"@[9] == 'o' && "beforeunload"@[10] == 'a'
            && "beforeunload"@[11] == 'd'
    );
    assert(
        "blur"@.len() == 4 && "blur"@[0] == 'b' && "blur"@[1] == 'l' && "blur"@[2] == 'u'
            && "blur"@[3] == 'r'
    );
    assert(
        "canplay"@.len() == 7 && "canplay"@[0] == 'c' && "canplay"@[1] == 'a'
            && "canplay"@[2] == 'n' && "canplay"@[3] == 'p' && "canplay"@[4] == 'l'
            && "canplay"@[5] == 'a' && "canplay"@[6] == 'y'
    );
    assert(
        "canplaythrough"@.len() == 14 && "canplaythrough"@[0] == 'c'
            && "canplaythrough"@[1] == 'a' && "canplaythrough"@[2] == 'n'
            && "canplaythrough"@[3] == 'p' && "canplaythrough"@[4] == 'l'
            && "canplaythrough"@[5] == 'a' && "canplaythrough"@[6] == 'y'
            && "canplaythrough"@[7] == 't' && "canplaythrough"@[8] == 'h'
            && "canplaythrough"@[9] == 'r' && "canplaythrough"@[10] == 'o'
            && "canplaythrough"@[11] == 'u' && "canplaythrough"@[12] == 'g'
            && "canplaythrough"@[13] == 'h'
    );
    assert(
        "change"@.len() == 6 && "change"@[0] == 'c' && "change"@[1] == 'h'
            && "change"@[2] == 'a' && "change"@[3] == 'n' && "change"@[4] == 'g'
            && "change"@[5] == 'e'
    );
    assert(
        "click"@.len() == 5 && "click"@[0] == 'c' && "click"@[1] == 'l' && "click"@[2] == 'i'
            && "click"@[3] == 'c' && "click"@[4] == 'k'
    );
    assert(
        "contextmenu"@.len() == 11 && "contextmenu"@[0] == 'c' && "contextmenu"@[1] == 'o'
            && "contextmenu"@[2] == 'n' && "contextmenu"@[3] == 't' && "contextmenu"@[4] == 'e'
            && "contextmenu"@[5] == 'x' && "contextmenu"@[6] == 't' && "contextmenu"@[7] == 'm'
            && "contextmenu"@[8] == 'e' && "contextmenu"@[9] == 'n' && "contextmenu"@[10] == 'u'
    );
    assert(
        "copy"@.len() == 4 && "copy"@[0] == 'c' && "copy"@[1] == 'o' && "copy"@[2] == 'p'
            && "copy"@[3] == 'y'
    );
    assert("cut"@.len() == 3 && "cut"@[0] == 'c' && "cut"@[1] == 'u' && "cut"@[2] == 't');
    assert(
        "dblclick"@.len() == 8 && "dblclick"@[0] == 'd' && "dblclick"@[1] == 'b'
            && "dblclick"@[2] == 'l' && "dblclick"@[3] == 'c' && "dblclick"@[4] == 'l'
            && "dblclick"@[5] == 'i' && "dblclick"@[6] == 'c' && "dblclick"@[7] == 'k'
    );
    assert(
        "drag"@.len() == 4 && "drag"@[0] == 'd' && "drag"@[1] == 'r' && "drag"@[2] == 'a'
            && "drag"@[3] == 'g'
    );
    assert(
        "dragend"@.len() == 7 && "dragend"@[0] == 'd' && "dragend"@[1] == 'r'
            && "dragend"@[2] == 'a' && "dragend"@[3] == 'g' && "dragend"@[4] == 'e'
            && "dragend"@[5] == 'n' && "dragend"@[6] == 'd'
    );
    assert(
        "dragenter"@.len() == 9 && "dragenter"@[0] == 'd' && "dragenter"@[1] == 'r'
            && "dragenter"@[2] == 'a' && "dragenter"@[3] == 'g' && "dragenter"@[4] == 'e'
            && "dragenter"@[5] == 'n' && "dragenter"@[6] == 't' && "dragenter"@[7] == 'e'
            && "dragenter"@[8] == 'r'
    );
    assert(
        "dragleave"@.len() == 9 && "dragleave"@[0] == 'd' && "dragleave"@[1] == 'r'
            && "dragleave"@[2] == 'a' && "dragleave"@[3] == 'g' && "dragleave"@[4] == 'l'
            && "dragleave"@[5] == 'e' && "dragleave"@[6] == 'a' && "dragleave"@[7] == 'v'
            && "dragleave"@[8] == 'e'
    );
    assert(
        "dragover"@.len() == 8 && "dragover"@[0] == 'd' && "dragover"@[1] == 'r'
            && "dragover"@[2] == 'a' && "dragover"@[3] == 'g' && "dragover"@[4] == 'o'
            && "dragover"@[5] == 'v' && "dragover"@[6] == 'e' && "dragover"@[7] == 'r'
    );
    assert(
        "dragstart"@.len() == 9 && "dragstart"@[0] == 'd' && "dragstart"@[1] == 'r'
            && "dragstart"@[2] == 'a' && "dragstart"@[3] == 'g' && "dragstart"@[4] == 's'
            && "dragstart"@[5] == 't' && "dragstart"@[6] == 'a' && "dragstart"@[7] == 'r'
            && "dragstart"@[8] == 't'
    );
    assert(
        "drop"@.len() == 4 && "drop"@[0] == 'd' && "drop"@[1] == 'r' && "drop"@[2] == 'o'
            && "drop"@[3] == 'p'
    );
    assert(
        "durationchange"@.len() == 14 && "durationchange"@[0] == 'd'
            && "durationchange"@[1] == 'u' && "durationchange"@[2] == 'r'
            && "durationchange"@[3] == 'a' && "durationchange"@[4] == 't'
            && "durationchange"@[5] == 'i' && "durationchange"@[6] == 'o'
            && "durationchange"@[7] == 'n' && "durationchange"@[8] == 'c'
            && "durationchange"@[9] == 'h' && "durationchange"@[10] == 'a'
            && "durationchange"@[11] == 'n' && "durationchange"@[12] == 'g'
            && "durationchange"@[13] == 'e'
    );
    assert(
        "ended"@.len() == 5 && "ended"@[0] == 'e' && "ended"@[1] == 'n' && "ended"@[2] == 'd'
            && "ended"@[3] == 'e' && "ended"@[4] == 'd'
    );
    assert(
        "error"@.len() == 5 && "error"@[0] == 'e' && "error"@[1] == 'r' && "error"@[2] == 'r'
            && "error"@[3] == 'o' && "error"@[4] == 'r'
    );
    assert(
        "focus"@.len() == 5 && "focus"@[0] == 'f' && "focus"@[1] == 'o' && "focus"@[2] == 'c'
            && "focus"@[3] == 'u' && "focus"@[4] == 's'
    );
    assert(
        "focusin"@.len() == 7 && "focusin"@[0] == 'f' && "focusin"@[1] == 'o'
            && "focusin"@[2] == 'c' && "focusin"@[3] == 'u' && "focusin"@[4] == 's'
            && "focusin"@[5] == 'i' && "focusin"@[6] == 'n'
    );
    assert(
        "focusout"@.len() == 8 && "focusout"@[0] == 'f' && "focusout"@[1] == 'o'
            && "focusout"@[2] == 'c' && "focusout"@[3] == 'u' && "focusout"@[4] == 's'
            && "focusout"@[5] == 'o' && "focusout"@[6] == 'u' && "focusout"@[7] == 't'
    );
    assert(
        "fullscreenchange"@.len() == 16 && "fullscreenchange"@[0] == 'f'
            && "fullscreenchange"@[1] == 'u' && "fullscreenchange"@[2] == 'l'
            && "fullscreenchange"@[3] == 'l' && "fullscreenchange"@[4] == 's'
            && "fullscreenchange"@[5] == 'c' && "fullscreenchange"@[6] == 'r'
            && "fullscreenchange"@[7] == 'e' && "fullscreenchange"@[8] == 'e'
            && "fullscreenchange"@[9] == 'n' && "fullscreenchange"@[10] == 'c'
            && "fullscreenchange"@[11] == 'h' && "fullscreenchange"@[12] == 'a'
            && "fullscreenchange"@[13] == 'n' && "fullscreenchange"@[14] == 'g'
            && "fullscreenchange"@[15] == 'e'
    );
    assert(
        "fullscreenerror"@.len() == 15 && "fullscreenerror"@[0] == 'f'
            && "fullscreenerror"@[1] == 'u' && "fullscreenerror"@[2] == 'l'
            && "fullscreenerror"@[3] == 'l' && "fullscreenerror"@[4] == 's'
            && "fullscreenerror"@[5] == 'c' && "fullscreenerror"@[6] == 'r'
            && "fullscreenerror"@[7] == 'e' && "fullscreenerror"@[8] == 'e'
            && "fullscreenerror"@[9] == 'n' && "fullscreenerror"@[10] == 'e'
            && "fullscreenerror"@[11] == 'r' && "fullscreenerror"@[12] == 'r'
            && "fullscreenerror"@[13] == 'o' && "fullscreenerror"@[14] == 'r'
    );
    assert(
        "hashchange"@.len() == 10 && "hashchange"@[0] == 'h' && "hashchange"@[1] == 'a'
            && "hashchange"@[2] == 's' && "hashchange"@[3] == 'h' && "hashchange"@[4] == 'c'
            && "hashchange"@[5] == 'h' && "hashchange"@[6] == 'a' && "hashchange"@[7] == 'n'
            && "hashchange"@[8] == 'g' && "hashchange"@[9] == 'e'
    );
    assert(
        "input"@.len() == 5 && "input"@[0] == 'i' && "input"@[1] == 'n' && "input"@[2] == 'p'
            && "input"@[3] == 'u' && "input"@[4] == 't'
    );
    assert(
        "invalid"@.len() == 7 && "invalid"@[0] == 'i' && "invalid"@[1] == 'n'
            && "invalid"@[2] == 'v' && "invalid"@[3] == 'a' && "invalid"@[4] == 'l'
            && "invalid"@[5] == 'i' && "invalid"@[6] == 'd'
    );
    assert(
        "keydown"@.len() == 7 && "keydown"@[0] == 'k' && "keydown"@[1] == 'e'
            && "keydown"@[2] == 'y' && "keydown"@[3] == 'd' && "keydown"@[4] == 'o'
            && "keydown"@[5] == 'w' && "keydown"@[6] == 'n'
    );
    assert(
        "keypress"@.len() == 8 && "keypress"@[0] == 'k' && "keypress"@[1] == 'e'
            && "keypress"@[2] == 'y' && "keypress"@[3] == 'p' && "keypress"@[4] == 'r'
            && "keypress"@[5] == 'e' && "keypress"@[6] == 's' && "keypress"@[7] == 's'
    );
    assert(
        "keyup"@.len() == 5 && "keyup"@[0] == 'k' && "keyup"@[1] == 'e' && "keyup"@[2] == 'y'
            && "keyup"@[3] == 'u' && "keyup"@[4] == 'p'
    );
    assert(
        "load"@.len() == 4 && "load"@[0] == 'l' && "load"@[1] == 'o' && "load"@[2] == 'a'
            && "load"@[3] == 'd'
    );
    assert(
        "loadeddata"@.len() == 10 && "loadeddata"@[0] == 'l' && "loadeddata"@[1] == 'o'
            && "loadeddata"@[2] == 'a' && "loadeddata"@[3] == 'd' && "loadeddata"@[4] == 'e'
            && "loadeddata"@[5] == 'd' && "loadeddata"@[6] == 'd' && "loadeddata"@[7] == 'a'
            && "loadeddata"@[8] == 't' && "loadeddata"@[9] == 'a'
    );
    assert(
        "loadedmetadata"@.len() == 14 && "loadedmetadata"@[0] == 'l'
            && "loadedmetadata"@[1] == 'o' && "loadedmetadata"@[2] == 'a'
            && "loadedmetadata"@[3] == 'd' && "loadedmetadata"@[4] == 'e'
            && "loadedmetadata"@[5] == 'd' && "loadedmetadata"@[6] == 'm'
            && "loadedmetadata"@[7] == 'e' && "loadedmetadata"@[8] == 't'
            && "loadedmetadata"@[9] == 'a' && "loadedmetadata"@[10] == 'd'
            && "loadedmetadata"@[11] == 'a' && "loadedmetadata"@[12] == 't'
            && "loadedmetadata"@[13] == 'a'
    );
    assert(
        "loadstart"@.len() == 9 && "loadstart"@[0] == 'l' && "loadstart"@[1] == 'o'
            && "loadstart"@[2] == 'a' && "loadstart"@[3] == 'd' && "loadstart"@[4] == 's'
            && "loadstart"@[5] == 't' && "loadstart"@[6] == 'a' && "loadstart"@[7] == 'r'
            && "loadstart"@[8] == 't'
    );
    assert(
        "message"@.len() == 7 && "message"@[0] == 'm' && "message"@[1] == 'e'
            && "message"@[2] == 's' && "message"@[3] == 's' && "message"@[4] == 'a'
            && "message"@[5] == 'g' && "message"@[6] == 'e'
    );
    assert(
        "mousedown"@.len() == 9 && "mousedown"@[0] == 'm' && "mousedown"@[1] == 'o'
            && "mousedown"@[2] == 'u' && "mousedown"@[3] == 's' && "mousedown"@[4] == 'e'
            && "mousedown"@[5] == 'd' && "mousedown"@[6] == 'o' && "mousedown"@[7] == 'w'
            && "mousedown"@[8] == 'n'
    );
    assert(
        "mouseenter"@.len() == 10 && "mouseenter"@[0] == 'm' && "mouseenter"@[1] == 'o'
            && "mouseenter"@[2] == 'u' && "mouseenter"@[3] == 's' && "mouseenter"@[4] == 'e'
            && "mouseenter"@[5] == 'e' && "mouseenter"@[6] == 'n' && "mouseenter"@[7] == 't'
            && "mouseenter"@[8] == 'e' && "mouseenter"@[9] == 'r'
    );
    assert(
        "mouseleave"@.len() == 10 && "mouseleave"@[0] == 'm' && "mouseleave"@[1] == 'o'
            && "mouseleave"@[2] == 'u' && "mouseleave"@[3] == 's' && "mouseleave"@[4] == 'e'
            && "mouseleave"@[5] == 'l' && "mouseleave"@[6] == 'e' && "mouseleave"@[7] == 'a'
            && "mouseleave"@[8] == 'v' && "mouseleave"@[9] == 'e'
    );
    assert(
        "mousemove"@.len() == 9 && "mousemove"@[0] == 'm' && "mousemove"@[1] == 'o'
            && "mousemove"@[2] == 'u' && "mousemove"@[3] == 's' && "mousemove"@[4] == 'e'
            && "mousemove"@[5] == 'm' && "mousemove"@[6] == 'o' && "mousemove"@[7] == 'v'
            && "mousemove"@[8] == 'e'
    );
    assert(
        "mouseover"@.len() == 9 && "mouseover"@[0] == 'm' && "mouseover"@[1] == 'o'
            && "mouseover"@[2] == 'u' && "mouseover"@[3] == 's' && "mouseover"@[4] == 'e'
            && "mouseover"@[5] == 'o' && "mouseover"@[6] == 'v' && "mouseover"@[7] == 'e'
            && "mouseover"@[8] == 'r'
    );
    assert(
        "mouseout"@.len() == 8 && "mouseout"@[0] == 'm' && "mouseout"@[1] == 'o'
            && "mouseout"@[2] == 'u' && "mouseout"@[3] == 's' && "mouseout"@[4] == 'e'
            && "mouseout"@[5] == 'o' && "mouseout"@[6] == 'u' && "mouseout"@[7] == 't'
    );
    assert(
        "mouseup"@.len() == 7 && "mouseup"@[0] == 'm' && "mouseup"@[1] == 'o'
            && "mouseup"@[2] == 'u' && "mouseup"@[3] == 's' && "mouseup"@[4] == 'e'
            && "mouseup"@[5] == 'u' && "mouseup"@[6] == 'p'
    );
    assert(
        "mousewheel"@.len() == 10 && "mousewheel"@[0] == 'm' && "mousewheel"@[1] == 'o'
            && "mousewheel"@[2] == 'u' && "mousewheel"@[3] == 's' && "mousewheel"@[4] == 'e'
            && "mousewheel"@[5] == 'w' && "mousewheel"@[6] == 'h' && "mousewheel"@[7] == 'e'
            && "mousewheel"@[8] == 'e' && "mousewheel"@[9] == 'l'
    );
    assert(
        "offline"@.len() == 7 && "offline"@[0] == 'o' && "offline"@[1] == 'f'
            && "offline"@[2] == 'f' && "offline"@[3] == 'l' && "offline"@[4] == 'i'
            && "offline"@[5] == 'n' && "offline"@[6] == 'e'
    );
    assert(
        "online"@.len() == 6 && "online"@[0] == 'o' && "online"@[1] == 'n'
            && "online"@[2] == 'l' && "online"@[3] == 'i' && "online"@[4] == 'n'
            && "online"@[5] == 'e'
    );
    assert(
        "open"@.len() == 4 && "open"@[0] == 'o' && "open"@[1] == 'p' && "open"@[2] == 'e'
            && "open"@[3] == 'n'
    );
    assert(
        "pagehide"@.len() == 8 && "pagehide"@[0] == 'p' && "pagehide"@[1] == 'a'
            && "pagehide"@[2] == 'g' && "pagehide"@[3] == 'e' && "pagehide"@[4] == 'h'
            && "pagehide"@[5] == 'i' && "pagehide"@[6] == 'd' && "pagehide"@[7] == 'e'
    );
    assert(
        "pageshow"@.len() == 8 && "pageshow"@[0] == 'p' && "pageshow"@[1] == 'a'
            && "pageshow"@[2] == 'g' && "pageshow"@[3] == 'e' && "pageshow"@[4] == 's'
            && "pageshow"@[5] == 'h' && "pageshow"@[6] == 'o' && "pageshow"@[7] == 'w'
    );
    assert(
        "paste"@.len() == 5 && "paste"@[0] == 'p' && "paste"@[1] == 'a' && "paste"@[2] == 's'
            && "paste"@[3] == 't' && "paste"@[4] == 'e'
    );
    assert(
        "pause"@.len() == 5 && "pause"@[0] == 'p' && "pause"@[1] == 'a' && "pause"@[2] == 'u'
            && "pause"@[3] == 's' && "pause"@[4] == 'e'
    );
    assert(
        "play"@.len() == 4 && "play"@[0] == 'p' && "play"@[1] == 'l' && "play"@[2] == 'a'
            && "play"@[3] == 'y'
    );
    assert(
        "playing"@.len() == 7 && "playing"@[0] == 'p' && "playing"@[1] == 'l'
            && "playing"@[2] == 'a' && "playing"@[3] == 'y' && "playing"@[4] == 'i'
            && "playing"@[5] == 'n' && "playing"@[6] == 'g'
    );
    assert(
        "popstate"@.len() == 8 && "popstate"@[0] == 'p' && "popstate"@[1] == 'o'
            && "popstate"@[2] == 'p' && "popstate"@[3] == 's' && "popstate"@[4] == 't'
            && "popstate"@[5] == 'a' && "popstate"@[6] == 't' && "popstate"@[7] == 'e'
    );
    assert(
        "progress"@.len() == 8 && "progress"@[0] == 'p' && "progress"@[1] == 'r'
            && "progress"@[2] == 'o' && "progress"@[3] == 'g' && "progress"@[4] == 'r'
            && "progress"@[5] == 'e' && "progress"@[6] == 's' && "progress"@[7] == 's'
    );
    assert(
        "ratechange"@.len() == 10 && "ratechange"@[0] == 'r' && "ratechange"@[1] == 'a'
            && "ratechange"@[2] == 't' && "ratechange"@[3] == 'e' && "ratechange"@[4] == 'c'
            && "ratechange"@[5] == 'h' && "ratechange"@[6] == 'a' && "ratechange"@[7] == 'n'
            && "ratechange"@[8] == 'g' && "ratechange"@[9] == 'e'
    );
    assert(
        "resize"@.len() == 6 && "resize"@[0] == 'r' && "resize"@[1] == 'e'
            && "resize"@[2] == 's' && "resize"@[3] == 'i' && "resize"@[4] == 'z'
            && "resize"@[5] == 'e'
    );
    assert(
        "reset"@.len() == 5 && "reset"@[0] == 'r' && "reset"@[1] == 'e' && "reset"@[2] == 's'
            && "reset"@[3] == 'e' && "reset"@[4] == 't'
    );
    assert(
        "scroll"@.len() == 6 && "scroll"@[0] == 's' && "scroll"@[1] == 'c'
            && "scroll"@[2] == 'r' && "scroll"@[3] == 'o' && "scroll"@[4] == 'l'
            && "scroll"@[5] == 'l'
    );
    assert(
        "search"@.len() == 6 && "search"@[0] == 's' && "search"@[1] == 'e'
            && "search"@[2] == 'a' && "search"@[3] == 'r' && "search"@[4] == 'c'
            && "search"@[5] == 'h'
    );
    assert(
        "seeked"@.len() == 6 && "seeked"@[0] == 's' && "seeked"@[1] == 'e'
            && "seeked"@[2] == 'e' && "seeked"@[3] == 'k' && "seeked"@[4] == 'e'
            && "seeked"@[5] == 'd'
    );
    assert(
        "seeking"@.len() == 7 && "seeking"@[0] == 's' && "seeking"@[1] == 'e'
            && "seeking"@[2] == 'e' && "seeking"@[3] == 'k' && "seeking"@[4] == 'i'
            && "seeking"@[5] == 'n' && "seeking"@[6] == 'g'
    );
    assert(
        "select"@.len() == 6 && "select"@[0] == 's' && "select"@[1] == 'e'
            && "select"@[2] == 'l' && "select"@[3] == 'e' && "select"@[4] == 'c'
            && "select"@[5] == 't'
    );
    assert(
        "show"@.len() == 4 && "show"@[0] == 's' && "show"@[1] == 'h' && "show"@[2] == 'o'
            && "show"@[3] == 'w'
    );
    assert(
        "stalled"@.len() == 7 && "stalled"@[0] == 's' && "stalled"@[1] == 't'
            && "stalled"@[2] == 'a' && "stalled"@[3] == 'l' && "stalled"@[4] == 'l'
            && "stalled"@[5] == 'e' && "stalled"@[6] == 'd'
    );
    assert(
        "storage"@.len() == 7 && "storage"@[0] == 's' && "storage"@[1] == 't'
            && "storage"@[2] == 'o' && "storage"@[3] == 'r' && "storage"@[4] == 'a'
            && "storage"@[5] == 'g' && "storage"@[6] == 'e'
    );
    assert(
        "submit"@.len() == 6 && "submit"@[0] == 's' && "submit"@[1] == 'u'
            && "submit"@[2] == 'b' && "submit"@[3] == 'm' && "submit"@[4] == 'i'
            && "submit"@[5] == 't'
    );
    assert(
        "suspend"@.len() == 7 && "suspend"@[0] == 's' && "suspend"@[1] == 'u'
            && "suspend"@[2] == 's' && "suspend"@[3] == 'p' && "suspend"@[4] == 'e'
            && "suspend"@[5] == 'n' && "suspend"@[6] == 'd'
    );
    assert(
        "timeupdate"@.len() == 10 && "timeupdate"@[0] == 't' && "timeupdate"@[1] == 'i'
            && "timeupdate"@[2] == 'm' && "timeupdate"@[3] == 'e' && "timeupdate"@[4] == 'u'
            && "timeupdate"@[5] == 'p' && "timeupdate"@[6] == 'd' && "timeupdate"@[7] == 'a'
            && "timeupdate"@[8] == 't' && "timeupdate"@[9] == 'e'
    );
    assert(
        "toggle"@.len() == 6 && "toggle"@[0] == 't' && "toggle"@[1] == 'o'
            && "toggle"@[2] == 'g' && "toggle"@[3] == 'g' && "toggle"@[4] == 'l'
            && "toggle"@[5] == 'e'
    );
    assert(
        "touchcancel"@.len() == 11 && "touchcancel"@[0] == 't' && "touchcancel"@[1] == 'o'
            && "touchcancel"@[2] == 'u' && "touchcancel"@[3] == 'c' && "touchcancel"@[4] == 'h'
            && "touchcancel"@[5] == 'c' && "touchcancel"@[6] == 'a' && "touchcancel"@[7] == 'n'
            && "touchcancel"@[8] == 'c' && "touchcancel"@[9] == 'e' && "touchcancel"@[10] == 'l'
    );
    assert(
        "touchend"@.len() == 8 && "touchend"@[0] == 't' && "touchend"@[1] == 'o'
            && "touchend"@[2] == 'u' && "touchend"@[3] == 'c' && "touchend"@[4] == 'h'
            && "touchend"@[5] == 'e' && "touchend"@[6] == 'n' && "touchend"@[7] == 'd'
    );
    assert(
        "touchmove"@.len() == 9 && "touchmove"@[0] == 't' && "touchmove"@[1] == 'o'
            && "touchmove"@[2] == 'u' && "touchmove"@[3] == 'c' && "touchmove"@[4] == 'h'
            && "touchmove"@[5] == 'm' && "touchmove"@[6] == 'o' && "touchmove"@[7] == 'v'
            && "touchmove"@[8] == 'e'
    );
    assert(
        "touchstart"@.len() == 10 && "touchstart"@[0] == 't' && "touchstart"@[1] == 'o'
            && "touchstart"@[2] == 'u' && "touchstart"@[3] == 'c' && "touchstart"@[4] == 'h'
            && "touchstart"@[5] == 's' && "touchstart"@[6] == 't' && "touchstart"@[7] == 'a'
            && "touchstart"@[8] == 'r' && "touchstart"@[9] == 't'
    );
    assert(
        "transitionend"@.len() == 13 && "transitionend"@[0] == 't'
            && "transitionend"@[1] == 'r' && "transitionend"@[2] == 'a'
            && "transitionend"@[3] == 'n' && "transitionend"@[4] == 's'
            && "transitionend"@[5] == 'i' && "transitionend"@[6] == 't'
            && "transitionend"@[7] == 'i' && "transitionend"@[8] == 'o'
            && "transitionend"@[9] == 'n' && "transitionend"@[10] == 'e'
            && "transitionend"@[11] == 'n' && "transitionend"@[12] == 'd'
    );
    assert(
        "unload"@.len() == 6 && "unload"@[0] == 'u' && "unload"@[1] == 'n'
            && "unload"@[2] == 'l' && "unload"@[3] == 'o' && "unload"@[4] == 'a'
            && "unload"@[5] == 'd'
    );
    assert(
        "volumechange"@.len() == 12 && "volumechange"@[0] == 'v' && "volumechange"@[1] == 'o'
            && "volumechange"@[2] == 'l' && "volumechange"@[3] == 'u' && "volumechange"@[4] == 'm'
            && "volumechange"@[5] == 'e' && "volumechange"@[6] == 'c' && "volumechange"@[7] == 'h'
            && "volumechange"@[8] == 'a' && "volumechange"@[9] == 'n' && "volumechange"@[10] == 'g'
            && "volumechange"@[11] == 'e'
    );
    assert(
        "waiting"@.len() == 7 && "waiting"@[0] == 'w' && "waiting"@[1] == 'a'
            && "waiting"@[2] == 'i' && "waiting"@[3] == 't' && "waiting"@[4] == 'i'
            && "waiting"@[5] == 'n' && "waiting"@[6] == 'g'
    );
    assert(
        "wheel"@.len() == 5 && "wheel"@[0] == 'w' && "wheel"@[1] == 'h' && "wheel"@[2] == 'e'
            && "wheel"@[3] == 'e' && "wheel"@[4] == 'l'
    );
}

/// Looking up the name of a known event gives that event.
pub proof fn lemma_name_finds_its_kind(kind: EventKind)
    ensures
        kind_named(kind.name()) == Some(kind),
{
    lemma_names_distinct(kind, kind_named(kind.name()).unwrap());
}

} // verus!
