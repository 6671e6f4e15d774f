//! The outbound envelope: how a kind and its data are written as one text
//! frame, and how the receiving side reads them back.

use vstd::prelude::*;
use vstd::string::StringExecFns;

use crate::event::event_type::Event;
use crate::text::push_char;

verus! {

/// Whether `c` is a control character, which a reader of a frame refuses
/// where it stands bare inside a quoted text.
pub open spec fn is_control(c: char) -> bool {
    (c as u32) < 0x20
}

/// The digit that stands for `d`, which is less than sixteen, in base
/// sixteen, with small letters.
pub open spec fn hex_digit(d: nat) -> char {
    if d < 10 {
        ('0' as u8 + d) as u8 as char
    } else {
        ('a' as u8 + (d - 10)) as u8 as char
    }
}

/// How one character of the data is written inside the envelope. A double
/// quote and a backslash get a backslash in front of them; a control
/// character is written as the escape that JSON has for it, the short one
/// where there is one and the one with four digits otherwise; every other
/// character stands as it is.
pub open spec fn escape_char(c: char) -> Seq<char> {
    if c == '"' || c == '\\' {
        seq!['\\', c]
    } else if c == '\u{8}' {
        seq!['\\', 'b']
    } else if c == '\u{c}' {
        seq!['\\', 'f']
    } else if c == '\n' {
        seq!['\\', 'n']
    } else if c == '\r' {
        seq!['\\', 'r']
    } else if c == '\t' {
        seq!['\\', 't']
    } else if is_control(c) {
        seq![
            '\\',
            'u',
            '0',
            '0',
            hex_digit((c as u32 / 16) as nat),
            hex_digit((c as u32 % 16) as nat),
        ]
    } else {
        seq![c]
    }
}

/// The data with every character written as `escape_char` writes it.
pub open spec fn escape(data: Seq<char>) -> Seq<char>
    decreases data.len(),
{
    if data.len() == 0 {
        Seq::empty()
    } else {
        escape_char(data[0]) + escape(data.skip(1))
    }
}

/// What stands before the kind's name in a frame.
pub open spec fn frame_head() -> Seq<char> {
    "{\"name\":\""@
}

/// What stands between the kind's name and the data.
pub open spec fn frame_middle() -> Seq<char> {
    "\",\"data\":\""@
}

/// What closes a frame.
pub open spec fn frame_tail() -> Seq<char> {
    "\"}"@
}

/// The text frame that carries `data` as an envelope of kind `event`.
pub open spec fn envelope(event: Event, data: Seq<char>) -> Seq<char> {
    frame_head() + event.wire_name() + frame_middle() + escape(data) + frame_tail()
}

/// The digit that stands for `d` in base sixteen.
fn hex_char(d: u32) -> (c: char)
    requires
        d < 16,
    ensures
        c == hex_digit(d as nat),
{
    if d < 10 {
        ('0' as u8 + d as u8) as char
    } else {
        ('a' as u8 + (d as u8 - 10)) as char
    }
}

/// Appends `c` as it is written inside the envelope.
fn push_escaped(text: &mut String, c: char)
    ensures
        final(text)@ == old(text)@ + escape_char(c),
{
    let code = c as u32;
    if c == '"' || c == '\\' {
        push_char(text, '\\');
        push_char(text, c);
    } else if c == '\u{8}' {
        push_char(text, '\\');
        push_char(text, 'b');
    } else if c == '\u{c}' {
        push_char(text, '\\');
        push_char(text, 'f');
    } else if c == '\n' {
        push_char(text, '\\');
        push_char(text, 'n');
    } else if c == '\r' {
        push_char(text, '\\');
        push_char(text, 'r');
    } else if c == '\t' {
        push_char(text, '\\');
        push_char(text, 't');
    } else if code < 0x20 {
        push_char(text, '\\');
        push_char(text, 'u');
        push_char(text, '0');
        push_char(text, '0');
        push_char(text, hex_char(code / 16));
        push_char(text, hex_char(code % 16));
    } else {
        push_char(text, c);
    }
    assert(text@ =~= old(text)@ + escape_char(c));
}

/// Escapes `data` for the envelope: quotes, backslashes and control
/// characters.
pub fn escape_data(data: &str) -> (escaped: String)
    ensures
        escaped@ == escape(data@),
{
    broadcast use vstd::string::group_string_axioms;

    let mut escaped = String::new();
    assert(data@.skip(0) =~= data@);
    for c in it: data.chars()
        invariant
            it.seq() == data@,
            escape(data@) == escaped@ + escape(data@.skip(it.index())),
    {
        let ghost rest = data@.skip(it.index());
        assert(rest.len() > 0 && rest[0] == c);
        assert(rest.skip(1) =~= data@.skip(it.index() + 1));
        push_escaped(&mut escaped, c);
        assert(escaped@ + escape(rest.skip(1)) =~= escape(data@));
    }
    assert(data@.skip(data@.len() as int) =~= Seq::<char>::empty());
    assert(escaped@ + Seq::<char>::empty() =~= escaped@);
    escaped
}

/// Builds the text frame that carries `data` as an envelope of kind
/// `event`: `{"name":"<js|html>","data":"<data, escaped>"}`.
pub fn frame(event: Event, data: &str) -> (text: String)
    ensures
        text@ == envelope(event, data@),
{
    let mut text = String::from_str("{\"name\":\"");
    text.append(event.to_string().as_str());
    text.append("\",\"data\":\"");
    text.append(escape_data(data).as_str());
    text.append("\"}");
    text
}

/// The character that a reader of a frame puts for a backslash and the
/// character `c` after it, where `c` is not the `u` that begins the escape
/// with four digits.
pub open spec fn unescaped(c: char) -> Option<char> {
    if c == '"' || c == '\\' || c == '/' {
        Some(c)
    } else if c == 'b' {
        Some('\u{8}')
    } else if c == 'f' {
        Some('\u{c}')
    } else if c == 'n' {
        Some('\n')
    } else if c == 'r' {
        Some('\r')
    } else if c == 't' {
        Some('\t')
    } else {
        None
    }
}

/// The number that the digit `c` stands for in base sixteen, in small or
/// capital letters.
pub open spec fn hex_value(c: char) -> Option<nat> {
    let code = c as u32;
    if 0x30 <= code <= 0x39 {
        Some((code - 0x30) as nat)
    } else if 0x61 <= code <= 0x66 {
        Some((code - 0x61 + 10) as nat)
    } else if 0x41 <= code <= 0x46 {
        Some((code - 0x41 + 10) as nat)
    } else {
        None
    }
}

/// The number that four digits spell in base sixteen.
pub open spec fn hex_code(digits: Seq<char>) -> Option<nat>
    recommends
        digits.len() == 4,
{
    match (hex_value(digits[0]), hex_value(digits[1]), hex_value(digits[2]), hex_value(digits[3])) {
        (Some(a), Some(b), Some(c), Some(d)) => Some(((a * 16 + b) * 16 + c) * 16 + d),
        _ => None,
    }
}

/// The character with the code `code`. There is none for a code that is
/// one half of a pair or too large; a reader joins such pairs, and that is
/// not read here: no frame built by this module holds one.
pub open spec fn char_of(code: nat) -> Option<char> {
    if code <= 0xD7FF || 0xE000 <= code <= 0x10FFFF {
        Some(code as u32 as char)
    } else {
        None
    }
}

/// Reads a quoted text from behind its opening quote: the text up to the
/// first quote that no backslash escapes, with the escapes undone, and what
/// follows that quote. None where the text never closes or holds what a
/// reader refuses.
pub open spec fn read_text(s: Seq<char>) -> Option<(Seq<char>, Seq<char>)>
    decreases s.len(),
{
    if s.len() == 0 {
        None
    } else if s[0] == '"' {
        Some((Seq::empty(), s.skip(1)))
    } else if s[0] == '\\' {
        if s.len() < 2 {
            None
        } else if s[1] == 'u' {
            if s.len() < 6 {
                None
            } else {
                match hex_code(s.subrange(2, 6)) {
                    Some(code) => match (char_of(code), read_text(s.skip(6))) {
                        (Some(c), Some((text, rest))) => Some((seq![c] + text, rest)),
                        _ => None,
                    },
                    None => None,
                }
            }
        } else {
            match (unescaped(s[1]), read_text(s.skip(2))) {
                (Some(c), Some((text, rest))) => Some((seq![c] + text, rest)),
                _ => None,
            }
        }
    } else if is_control(s[0]) {
        None
    } else {
        match read_text(s.skip(1)) {
            Some((text, rest)) => Some((seq![s[0]] + text, rest)),
            None => None,
        }
    }
}

/// The kind that travels under `name`, if there is one.
pub open spec fn event_named(name: Seq<char>) -> Option<Event> {
    if name == Event::JS.wire_name() {
        Some(Event::JS)
    } else if name == Event::HTML.wire_name() {
        Some(Event::HTML)
    } else {
        None
    }
}

/// Whether `s` begins with `prefix`.
pub open spec fn starts_with(s: Seq<char>, prefix: Seq<char>) -> bool {
    prefix.len() <= s.len() && s.take(prefix.len() as int) == prefix
}

/// What the receiving side makes of a frame: the kind and the data, read
/// back from the layout that `envelope` writes.
pub open spec fn read_envelope(text: Seq<char>) -> Option<(Event, Seq<char>)> {
    if !starts_with(text, frame_head()) {
        None
    } else {
        match read_text(text.skip(frame_head().len() as int)) {
            Some((name, after_name)) => {
                let between = frame_middle().skip(1);
                if !starts_with(after_name, between) {
                    None
                } else {
                    match (event_named(name), read_text(after_name.skip(between.len() as int))) {
                        (Some(event), Some((data, after_data))) => {
                            if after_data == frame_tail().skip(1) {
                                Some((event, data))
                            } else {
                                None
                            }
                        },
                        _ => None,
                    }
                }
            },
            None => None,
        }
    }
}

/// One escaped character reads back as the character, and the reading goes
/// on behind it.
proof fn lemma_escaped_char_reads_back(c: char, inner: Seq<char>)
    requires
        read_text(inner) is Some,
    ensures
        read_text(escape_char(c) + inner) == Some(
            (seq![c] + read_text(inner).unwrap().0, read_text(inner).unwrap().1),
        ),
{
    let s = escape_char(c) + inner;
    if c == '"' || c == '\\' || c == '\u{8}' || c == '\u{c}' || c == '\n' || c == '\r' || c
        == '\t' {
        assert(s.skip(2) =~= inner);
    } else if is_control(c) {
        let code = c as u32;
        let high = (code / 16) as nat;
        let low = (code % 16) as nat;
        assert(s.skip(6) =~= inner);
        let digits = s.subrange(2, 6);
        assert(digits[0] == '0' && digits[1] == '0');
        assert(digits[2] == hex_digit(high) && digits[3] == hex_digit(low));
        assert(hex_value('0') == Some(0nat));
        assert(hex_value(hex_digit(high)) == Some(high));
        assert(hex_value(hex_digit(low)) == Some(low));
        assert(hex_code(digits) == Some(code as nat));
        assert(code as char == c);
        assert(char_of(code as nat) == Some(c));
    } else {
        assert(s.skip(1) =~= inner);
    }
}

/// Escaped data that is followed by a quote reads back as the data, and
/// the reading stops at that quote: nothing inside the data ends the text
/// early.
pub proof fn lemma_escaped_reads_back(data: Seq<char>, rest: Seq<char>)
    ensures
        read_text(escape(data) + seq!['"'] + rest) == Some((data, rest)),
    decreases data.len(),
{
    let s = escape(data) + seq!['"'] + rest;
    if data.len() == 0 {
        assert(s.skip(1) =~= rest);
        assert(data =~= Seq::<char>::empty());
    } else {
        let tail = data.skip(1);
        let inner = escape(tail) + seq!['"'] + rest;
        lemma_escaped_reads_back(tail, rest);
        lemma_escaped_char_reads_back(data[0], inner);
        assert(s =~= escape_char(data[0]) + inner);
        assert(seq![data[0]] + tail =~= data);
    }
}

/// A frame reads back, on the receiving side, as the kind and the data
/// that it was built from, whatever the data holds.
pub proof fn lemma_envelope_round_trip(event: Event, data: Seq<char>)
    ensures
        read_envelope(envelope(event, data)) == Some((event, data)),
{
    reveal_strlit("{\"name\":\"");
    reveal_strlit("\",\"data\":\"");
    reveal_strlit("\"}");
    let text = envelope(event, data);
    let name = event.wire_name();
    let between = frame_middle().skip(1);
    let close = frame_tail().skip(1);
    let after_name = between + escape(data) + frame_tail();
    assert(text.take(frame_head().len() as int) =~= frame_head());
    assert(escape(name) =~= name) by {
        reveal_with_fuel(escape, 5);
    }
    lemma_escaped_reads_back(name, after_name);
    assert(text.skip(frame_head().len() as int) =~= escape(name) + seq!['"'] + after_name);
    assert(after_name.take(between.len() as int) =~= between);
    lemma_escaped_reads_back(data, close);
    assert(after_name.skip(between.len() as int) =~= escape(data) + seq!['"'] + close);
}

} // verus!
