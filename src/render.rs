//! Text for the console: how each event and diagnostic is written.
use vstd::prelude::*;
use crate::decoder::Decoded;
use crate::keys::KeyEvent;

verus! {

/// Backspace control character.
pub const BS: char = '\u{8}';

/// The text written for an event: a character as it is, a qualified
/// character as `<C-x>`, `<M-x>` or `<S-x>`, escape as `[ESC]`, backspace as
/// move left, blank, move left, and a line for a passed self test.
pub open spec fn event_text(ev: KeyEvent) -> Seq<char> {
    match ev {
        KeyEvent::Char(c) => seq![c],
        KeyEvent::Ctrl(c) => seq!['<', 'C', '-', c, '>'],
        KeyEvent::Alt(c) => seq!['<', 'M', '-', c, '>'],
        KeyEvent::Meta(c) => seq!['<', 'S', '-', c, '>'],
        KeyEvent::Escape => seq!['[', 'E', 'S', 'C', ']'],
        KeyEvent::Backspace => seq![BS, ' ', BS],
        KeyEvent::SelfTestPassed => seq![
            'S', 'e', 'l', 'f', '-', 't', 'e', 's', 't', ' ', 'p', 'a', 's', 's', 'e', 'd', '\n',
        ],
    }
}

/// The line written when a frame fails its parity check.
pub open spec fn parity_fail_text() -> Seq<char> {
    seq!['\n', 'P', 'A', 'R', 'I', 'T', 'Y', ' ', 'F', 'A', 'I', 'L', '\n']
}

/// The text for an event.
pub fn render_event(ev: KeyEvent) -> (r: Vec<char>)
    ensures
        r@ == event_text(ev),
{
    let r = match ev {
        KeyEvent::Char(c) => vec![c],
        KeyEvent::Ctrl(c) => vec!['<', 'C', '-', c, '>'],
        KeyEvent::Alt(c) => vec!['<', 'M', '-', c, '>'],
        KeyEvent::Meta(c) => vec!['<', 'S', '-', c, '>'],
        KeyEvent::Escape => vec!['[', 'E', 'S', 'C', ']'],
        KeyEvent::Backspace => vec![BS, ' ', BS],
        KeyEvent::SelfTestPassed => vec![
            'S', 'e', 'l', 'f', '-', 't', 'e', 's', 't', ' ', 'p', 'a', 's', 's', 'e', 'd', '\n',
        ],
    };
    proof {
        assert(r@ =~= event_text(ev));
    }
    r
}

/// The text for a failed parity check.
pub fn render_parity_fail() -> (r: Vec<char>)
    ensures
        r@ == parity_fail_text(),
{
    let r = vec!['\n', 'P', 'A', 'R', 'I', 'T', 'Y', ' ', 'F', 'A', 'I', 'L', '\n'];
    proof {
        assert(r@ =~= parity_fail_text());
    }
    r
}

/// The text for a completed frame: the parity diagnostic when the check
/// failed, then the event's text, if there is an event.
pub open spec fn decoded_text(d: Decoded) -> Seq<char> {
    (if d.parity_ok {
        Seq::<char>::empty()
    } else {
        parity_fail_text()
    }) + match d.event {
        Some(ev) => event_text(ev),
        None => Seq::<char>::empty(),
    }
}

/// The text for a completed frame.
pub fn render_decoded(d: &Decoded) -> (r: Vec<char>)
    ensures
        r@ == decoded_text(*d),
{
    let mut r = if d.parity_ok {
        Vec::new()
    } else {
        render_parity_fail()
    };
    if let Some(ev) = d.event {
        let mut text = render_event(ev);
        r.append(&mut text);
    }
    proof {
        assert(r@ =~= decoded_text(*d));
    }
    r
}

} // verus!
