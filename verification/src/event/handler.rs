//! The handlers of an application: one for each known browser event.

use serde_json::Value;
use vstd::prelude::*;

use crate::connections::Endpoint;
use crate::event::kind::EventKind;

verus! {

/// What an application does when a browser reports an event.
///
/// Each known event has a method of its own, which gets what the browser
/// sent along and the connection that the report came from. A method that
/// an application leaves out does nothing.
pub trait EventHandler {
    fn abort(&self, _event: Value, _ctx: &Endpoint) {
    }

    fn afterprint(&self, _event: Value, _ctx: &Endpoint) {
    }

    fn animationend(&self, _event: Value, _ctx: &Endpoint) {
    }

    fn animationiteration(&self, _event: Value, _ctx: &Endpoint) {
    }

    fn animationstart(&self, _event: Value, _ctx: &Endpoint) {
    }

    fn beforeprint(&self, _event: Value, _ctx: &Endpoint) {
    }

    fn beforeunload(&self, _event: Value, _ctx: &Endpoint) {
    }

    fn blur(&self, _event: Value, _ctx: &Endpoint) {
    }

    fn canplay(&self, _event: Value, _ctx: &Endpoint) {
    }

    fn canplaythrough(&self, _event: Value, _ctx: &Endpoint) {
    }

    fn change(&self, _event: Value, _ctx: &Endpoint) {
    }

    fn click(&self, _event: Value, _ctx: &Endpoint) {
    }

    fn contextmenu(&self, _event: Value, _ctx: &Endpoint) {
    }

    fn copy(&self, _event: Value, _ctx: &Endpoint) {
    }

    fn cut(&self, _event: Value, _ctx: &Endpoint) {
    }

    fn dblclick(&self, _event: Value, _ctx: &Endpoint) {
    }

    fn drag(&self, _event: Value, _ctx: &Endpoint) {
    }

    fn dragend(&self, _event: Value, _ctx: &Endpoint) {
    }

    fn dragenter(&self, _event: Value, _ctx: &Endpoint) {
    }

    fn dragleave(&self, _event: Value, _ctx: &Endpoint) {
    }

    fn dragover(&self, _event: Value, _ctx: &Endpoint) {
    }

    fn dragstart(&self, _event: Value, _ctx: &Endpoint) {
    }

    fn drop(&self, _event: Value, _ctx: &Endpoint) {
    }

    fn durationchange(&self, _event: Value, _ctx: &Endpoint) {
    }

    fn ended(&self, _event: Value, _ctx: &Endpoint) {
    }

    fn error(&self, _event: Value, _ctx: &Endpoint) {
    }

    fn focus(&self, _event: Value, _ctx: &Endpoint) {
    }

    fn focusin(&self, _event: Value, _ctx: &Endpoint) {
    }

    fn focusout(&self, _event: Value, _ctx: &Endpoint) {
    }

    fn fullscreenchange(&self, _event: Value, _ctx: &Endpoint) {
    }

    fn fullscreenerror(&self, _event: Value, _ctx: &Endpoint) {
    }

    fn hashchange(&self, _event: Value, _ctx: &Endpoint) {
    }

    fn input(&self, _event: Value, _ctx: &Endpoint) {
    }

    fn invalid(&self, _event: Value, _ctx: &Endpoint) {
    }

    fn keydown(&self, _event: Value, _ctx: &Endpoint) {
    }

    fn keypress(&self, _event: Value, _ctx: &Endpoint) {
    }

    fn keyup(&self, _event: Value, _ctx: &Endpoint) {
    }

    fn load(&self, _event: Value, _ctx: &Endpoint) {
    }

    fn loadeddata(&self, _event: Value, _ctx: &Endpoint) {
    }

    fn loadedmetadata(&self, _event: Value, _ctx: &Endpoint) {
    }

    fn loadstart(&self, _event: Value, _ctx: &Endpoint) {
    }

    fn message(&self, _event: Value, _ctx: &Endpoint) {
    }

    fn mousedown(&self, _event: Value, _ctx: &Endpoint) {
    }

    fn mouseenter(&self, _event: Value, _ctx: &Endpoint) {
    }

    fn mouseleave(&self, _event: Value, _ctx: &Endpoint) {
    }

    fn mousemove(&self, _event: Value, _ctx: &Endpoint) {
    }

    fn mouseover(&self, _event: Value, _ctx: &Endpoint) {
    }

    fn mouseout(&self, _event: Value, _ctx: &Endpoint) {
    }

    fn mouseup(&self, _event: Value, _ctx: &Endpoint) {
    }

    fn mousewheel(&self, _event: Value, _ctx: &Endpoint) {
    }

    fn offline(&self, _event: Value, _ctx: &Endpoint) {
    }

    fn online(&self, _event: Value, _ctx: &Endpoint) {
    }

    fn open(&self, _event: Value, _ctx: &Endpoint) {
    }

    fn pagehide(&self, _event: Value, _ctx: &Endpoint) {
    }

    fn pageshow(&self, _event: Value, _ctx: &Endpoint) {
    }

    fn paste(&self, _event: Value, _ctx: &Endpoint) {
    }

    fn pause(&self, _event: Value, _ctx: &Endpoint) {
    }

    fn play(&self, _event: Value, _ctx: &Endpoint) {
    }

    fn playing(&self, _event: Value, _ctx: &Endpoint) {
    }

    fn popstate(&self, _event: Value, _ctx: &Endpoint) {
    }

    fn progress(&self, _event: Value, _ctx: &Endpoint) {
    }

    fn ratechange(&self, _event: Value, _ctx: &Endpoint) {
    }

    fn resize(&self, _event: Value, _ctx: &Endpoint) {
    }

    fn reset(&self, _event: Value, _ctx: &Endpoint) {
    }

    fn scroll(&self, _event: Value, _ctx: &Endpoint) {
    }

    fn search(&self, _event: Value, _ctx: &Endpoint) {
    }

    fn seeked(&self, _event: Value, _ctx: &Endpoint) {
    }

    fn seeking(&self, _event: Value, _ctx: &Endpoint) {
    }

    fn select(&self, _event: Value, _ctx: &Endpoint) {
    }

    fn show(&self, _event: Value, _ctx: &Endpoint) {
    }

    fn stalled(&self, _event: Value, _ctx: &Endpoint) {
    }

    fn storage(&self, _event: Value, _ctx: &Endpoint) {
    }

    fn submit(&self, _event: Value, _ctx: &Endpoint) {
    }

    fn suspend(&self, _event: Value, _ctx: &Endpoint) {
    }

    fn timeupdate(&self, _event: Value, _ctx: &Endpoint) {
    }

    fn toggle(&self, _event: Value, _ctx: &Endpoint) {
    }

    fn touchcancel(&self, _event: Value, _ctx: &Endpoint) {
    }

    fn touchend(&self, _event: Value, _ctx: &Endpoint) {
    }

    fn touchmove(&self, _event: Value, _ctx: &Endpoint) {
    }

    fn touchstart(&self, _event: Value, _ctx: &Endpoint) {
    }

    fn transitionend(&self, _event: Value, _ctx: &Endpoint) {
    }

    fn unload(&self, _event: Value, _ctx: &Endpoint) {
    }

    fn volumechange(&self, _event: Value, _ctx: &Endpoint) {
    }

    fn waiting(&self, _event: Value, _ctx: &Endpoint) {
    }

    fn wheel(&self, _event: Value, _ctx: &Endpoint) {
    }
}

/// What a call of the handler's method for `kind` brings about: whatever
/// that method promises of a call with `event` and `ctx`.
pub open spec fn reaction<H: EventHandler>(
    handler: &H,
    kind: EventKind,
    event: Value,
    ctx: &Endpoint,
) -> bool {
    match kind {
        EventKind::Abort => call_ensures(H::abort, (handler, event, ctx), ()),
        EventKind::Afterprint => call_ensures(H::afterprint, (handler, event, ctx), ()),
        EventKind::Animationend => call_ensures(H::animationend, (handler, event, ctx), ()),
        EventKind::Animationiteration => {
            call_ensures(H::animationiteration, (handler, event, ctx), ())
        },
        EventKind::Animationstart => call_ensures(H::animationstart, (handler, event, ctx), ()),
        EventKind::Beforeprint => call_ensures(H::beforeprint, (handler, event, ctx), ()),
        EventKind::Beforeunload => call_ensures(H::beforeunload, (handler, event, ctx), ()),
        EventKind::Blur => call_ensures(H::blur, (handler, event, ctx), ()),
        EventKind::Canplay => call_ensures(H::canplay, (handler, event, ctx), ()),
        EventKind::Canplaythrough => call_ensures(H::canplaythrough, (handler, event, ctx), ()),
        EventKind::Change => call_ensures(H::change, (handler, event, ctx), ()),
        EventKind::Click => call_ensures(H::click, (handler, event, ctx), ()),
        EventKind::Contextmenu => call_ensures(H::contextmenu, (handler, event, ctx), ()),
        EventKind::Copy => call_ensures(H::copy, (handler, event, ctx), ()),
        EventKind::Cut => call_ensures(H::cut, (handler, event, ctx), ()),
        EventKind::Dblclick => call_ensures(H::dblclick, (handler, event, ctx), ()),
        EventKind::Drag => call_ensures(H::drag, (handler, event, ctx), ()),
        EventKind::Dragend => call_ensures(H::dragend, (handler, event, ctx), ()),
        EventKind::Dragenter => call_ensures(H::dragenter, (handler, event, ctx), ()),
        EventKind::Dragleave => call_ensures(H::dragleave, (handler, event, ctx), ()),
        EventKind::Dragover => call_ensures(H::dragover, (handler, event, ctx), ()),
        EventKind::Dragstart => call_ensures(H::dragstart, (handler, event, ctx), ()),
        EventKind::Drop => call_ensures(H::drop, (handler, event, ctx), ()),
        EventKind::Durationchange => call_ensures(H::durationchange, (handler, event, ctx), ()),
        EventKind::Ended => call_ensures(H::ended, (handler, event, ctx), ()),
        EventKind::Error => call_ensures(H::error, (handler, event, ctx), ()),
        EventKind::Focus => call_ensures(H::focus, (handler, event, ctx), ()),
        EventKind::Focusin => call_ensures(H::focusin, (handler, event, ctx), ()),
        EventKind::Focusout => call_ensures(H::focusout, (handler, event, ctx), ()),
        EventKind::Fullscreenchange => call_ensures(H::fullscreenchange, (handler, event, ctx), ()),
        EventKind::Fullscreenerror => call_ensures(H::fullscreenerror, (handler, event, ctx), ()),
        EventKind::Hashchange => call_ensures(H::hashchange, (handler, event, ctx), ()),
        EventKind::Input => call_ensures(H::input, (handler, event, ctx), ()),
        EventKind::Invalid => call_ensures(H::invalid, (handler, event, ctx), ()),
        EventKind::Keydown => call_ensures(H::keydown, (handler, event, ctx), ()),
        EventKind::Keypress => call_ensures(H::keypress, (handler, event, ctx), ()),
        EventKind::Keyup => call_ensures(H::keyup, (handler, event, ctx), ()),
        EventKind::Load => call_ensures(H::load, (handler, event, ctx), ()),
        EventKind::Loadeddata => call_ensures(H::loadeddata, (handler, event, ctx), ()),
        EventKind::Loadedmetadata => call_ensures(H::loadedmetadata, (handler, event, ctx), ()),
        EventKind::Loadstart => call_ensures(H::loadstart, (handler, event, ctx), ()),
        EventKind::Message => call_ensures(H::message, (handler, event, ctx), ()),
        EventKind::Mousedown => call_ensures(H::mousedown, (handler, event, ctx), ()),
        EventKind::Mouseenter => call_ensures(H::mouseenter, (handler, event, ctx), ()),
        EventKind::Mouseleave => call_ensures(H::mouseleave, (handler, event, ctx), ()),
        EventKind::Mousemove => call_ensures(H::mousemove, (handler, event, ctx), ()),
        EventKind::Mouseover => call_ensures(H::mouseover, (handler, event, ctx), ()),
        EventKind::Mouseout => call_ensures(H::mouseout, (handler, event, ctx), ()),
        EventKind::Mouseup => call_ensures(H::mouseup, (handler, event, ctx), ()),
        EventKind::Mousewheel => call_ensures(H::mousewheel, (handler, event, ctx), ()),
        EventKind::Offline => call_ensures(H::offline, (handler, event, ctx), ()),
        EventKind::Online => call_ensures(H::online, (handler, event, ctx), ()),
        EventKind::Open => call_ensures(H::open, (handler, event, ctx), ()),
        EventKind::Pagehide => call_ensures(H::pagehide, (handler, event, ctx), ()),
        EventKind::Pageshow => call_ensures(H::pageshow, (handler, event, ctx), ()),
        EventKind::Paste => call_ensures(H::paste, (handler, event, ctx), ()),
        EventKind::Pause => call_ensures(H::pause, (handler, event, ctx), ()),
        EventKind::Play => call_ensures(H::play, (handler, event, ctx), ()),
        EventKind::Playing => call_ensures(H::playing, (handler, event, ctx), ()),
        EventKind::Popstate => call_ensures(H::popstate, (handler, event, ctx), ()),
        EventKind::Progress => call_ensures(H::progress, (handler, event, ctx), ()),
        EventKind::Ratechange => call_ensures(H::ratechange, (handler, event, ctx), ()),
        EventKind::Resize => call_ensures(H::resize, (handler, event, ctx), ()),
        EventKind::Reset => call_ensures(H::reset, (handler, event, ctx), ()),
        EventKind::Scroll => call_ensures(H::scroll, (handler, event, ctx), ()),
        EventKind::Search => call_ensures(H::search, (handler, event, ctx), ()),
        EventKind::Seeked => call_ensures(H::seeked, (handler, event, ctx), ()),
        EventKind::Seeking => call_ensures(H::seeking, (handler, event, ctx), ()),
        EventKind::Select => call_ensures(H::select, (handler, event, ctx), ()),
        EventKind::Show => call_ensures(H::show, (handler, event, ctx), ()),
        EventKind::Stalled => call_ensures(H::stalled, (handler, event, ctx), ()),
        EventKind::Storage => call_ensures(H::storage, (handler, event, ctx), ()),
        EventKind::Submit => call_ensures(H::submit, (handler, event, ctx), ()),
        EventKind::Suspend => call_ensures(H::suspend, (handler, event, ctx), ()),
        EventKind::Timeupdate => call_ensures(H::timeupdate, (handler, event, ctx), ()),
        EventKind::Toggle => call_ensures(H::toggle, (handler, event, ctx), ()),
        EventKind::Touchcancel => call_ensures(H::touchcancel, (handler, event, ctx), ()),
        EventKind::Touchend => call_ensures(H::touchend, (handler, event, ctx), ()),
        EventKind::Touchmove => call_ensures(H::touchmove, (handler, event, ctx), ()),
        EventKind::Touchstart => call_ensures(H::touchstart, (handler, event, ctx), ()),
        EventKind::Transitionend => call_ensures(H::transitionend, (handler, event, ctx), ()),
        EventKind::Unload => call_ensures(H::unload, (handler, event, ctx), ()),
        EventKind::Volumechange => call_ensures(H::volumechange, (handler, event, ctx), ()),
        EventKind::Waiting => call_ensures(H::waiting, (handler, event, ctx), ()),
        EventKind::Wheel => call_ensures(H::wheel, (handler, event, ctx), ()),
    }
}

/// Calls the handler's method for `kind`, and no other, with the event and
/// the connection it came from.
pub fn dispatch<H: EventHandler>(handler: &H, kind: EventKind, event: Value, ctx: &Endpoint)
    ensures
        reaction(handler, kind, event, ctx),
{
    match kind {
        EventKind::Abort => handler.abort(event, ctx),
        EventKind::Afterprint => handler.afterprint(event, ctx),
        EventKind::Animationend => handler.animationend(event, ctx),
        EventKind::Animationiteration => handler.animationiteration(event, ctx),
        EventKind::Animationstart => handler.animationstart(event, ctx),
        EventKind::Beforeprint => handler.beforeprint(event, ctx),
        EventKind::Beforeunload => handler.beforeunload(event, ctx),
        EventKind::Blur => handler.blur(event, ctx),
        EventKind::Canplay => handler.canplay(event, ctx),
        EventKind::Canplaythrough => handler.canplaythrough(event, ctx),
        EventKind::Change => handler.change(event, ctx),
        EventKind::Click => handler.click(event, ctx),
        EventKind::Contextmenu => handler.contextmenu(event, ctx),
        EventKind::Copy => handler.copy(event, ctx),
        EventKind::Cut => handler.cut(event, ctx),
        EventKind::Dblclick => handler.dblclick(event, ctx),
        EventKind::Drag => handler.drag(event, ctx),
        EventKind::Dragend => handler.dragend(event, ctx),
        EventKind::Dragenter => handler.dragenter(event, ctx),
        EventKind::Dragleave => handler.dragleave(event, ctx),
        EventKind::Dragover => handler.dragover(event, ctx),
        EventKind::Dragstart => handler.dragstart(event, ctx),
        EventKind::Drop => handler.drop(event, ctx),
        EventKind::Durationchange => handler.durationchange(event, ctx),
        EventKind::Ended => handler.ended(event, ctx),
        EventKind::Error => handler.error(event, ctx),
        EventKind::Focus => handler.focus(event, ctx),
        EventKind::Focusin => handler.focusin(event, ctx),
        EventKind::Focusout => handler.focusout(event, ctx),
        EventKind::Fullscreenchange => handler.fullscreenchange(event, ctx),
        EventKind::Fullscreenerror => handler.fullscreenerror(event, ctx),
        EventKind::Hashchange => handler.hashchange(event, ctx),
        EventKind::Input => handler.input(event, ctx),
        EventKind::Invalid => handler.invalid(event, ctx),
        EventKind::Keydown => handler.keydown(event, ctx),
        EventKind::Keypress => handler.keypress(event, ctx),
        EventKind::Keyup => handler.keyup(event, ctx),
        EventKind::Load => handler.load(event, ctx),
        EventKind::Loadeddata => handler.loadeddata(event, ctx),
        EventKind::Loadedmetadata => handler.loadedmetadata(event, ctx),
        EventKind::Loadstart => handler.loadstart(event, ctx),
        EventKind::Message => handler.message(event, ctx),
        EventKind::Mousedown => handler.mousedown(event, ctx),
        EventKind::Mouseenter => handler.mouseenter(event, ctx),
        EventKind::Mouseleave => handler.mouseleave(event, ctx),
        EventKind::Mousemove => handler.mousemove(event, ctx),
        EventKind::Mouseover => handler.mouseover(event, ctx),
        EventKind::Mouseout => handler.mouseout(event, ctx),
        EventKind::Mouseup => handler.mouseup(event, ctx),
        EventKind::Mousewheel => handler.mousewheel(event, ctx),
        EventKind::Offline => handler.offline(event, ctx),
        EventKind::Online => handler.online(event, ctx),
        EventKind::Open => handler.open(event, ctx),
        EventKind::Pagehide => handler.pagehide(event, ctx),
        EventKind::Pageshow => handler.pageshow(event, ctx),
        EventKind::Paste => handler.paste(event, ctx),
        EventKind::Pause => handler.pause(event, ctx),
        EventKind::Play => handler.play(event, ctx),
        EventKind::Playing => handler.playing(event, ctx),
        EventKind::Popstate => handler.popstate(event, ctx),
        EventKind::Progress => handler.progress(event, ctx),
        EventKind::Ratechange => handler.ratechange(event, ctx),
        EventKind::Resize => handler.resize(event, ctx),
        EventKind::Reset => handler.reset(event, ctx),
        EventKind::Scroll => handler.scroll(event, ctx),
        EventKind::Search => handler.search(event, ctx),
        EventKind::Seeked => handler.seeked(event, ctx),
        EventKind::Seeking => handler.seeking(event, ctx),
        EventKind::Select => handler.select(event, ctx),
        EventKind::Show => handler.show(event, ctx),
        EventKind::Stalled => handler.stalled(event, ctx),
        EventKind::Storage => handler.storage(event, ctx),
        EventKind::Submit => handler.submit(event, ctx),
        EventKind::Suspend => handler.suspend(event, ctx),
        EventKind::Timeupdate => handler.timeupdate(event, ctx),
        EventKind::Toggle => handler.toggle(event, ctx),
        EventKind::Touchcancel => handler.touchcancel(event, ctx),
        EventKind::Touchend => handler.touchend(event, ctx),
        EventKind::Touchmove => handler.touchmove(event, ctx),
        EventKind::Touchstart => handler.touchstart(event, ctx),
        EventKind::Transitionend => handler.transitionend(event, ctx),
        EventKind::Unload => handler.unload(event, ctx),
        EventKind::Volumechange => handler.volumechange(event, ctx),
        EventKind::Waiting => handler.waiting(event, ctx),
        EventKind::Wheel => handler.wheel(event, ctx),
    }
}

} // verus!
