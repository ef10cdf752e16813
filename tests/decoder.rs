use ps2_keyboard::decoder::{Decoded, Decoder};
use ps2_keyboard::frame::{FrameAssembler, FrameResult};
use ps2_keyboard::keys::{Interpreter, KeyEvent, L_CTRL, L_SHIFT, R_CTRL};
use ps2_keyboard::render::{render_decoded, render_event, render_parity_fail};
use ps2_keyboard::scancode::char_from_scancode;

/// The eleven bits of a frame carrying `code`, with the given parity bit.
fn frame_bits(code: u8, parity: bool) -> Vec<bool> {
    let mut bits = vec![false];
    for k in 0..8 {
        bits.push((code >> k) & 1 == 1);
    }
    bits.push(parity);
    bits.push(true);
    bits
}

/// The parity bit that the decoder accepts for `code`.
fn accepted_parity(code: u8) -> bool {
    code.count_ones() % 2 == 1
}

/// One clock pulse: clock high, then clock low, with `data` on the line.
fn pulse(frame: &mut FrameAssembler, data: bool) -> (FrameResult, FrameResult) {
    let rising = frame.sample(true, data);
    let falling = frame.sample(false, data);
    (rising, falling)
}

fn pulse_decoder(d: &mut Decoder, data: bool) -> Vec<Decoded> {
    let mut out = Vec::new();
    if let Some(x) = d.sample(true, data) {
        out.push(x);
    }
    if let Some(x) = d.sample(false, data) {
        out.push(x);
    }
    out
}

fn feed_frame(d: &mut Decoder, code: u8, parity: bool) -> Vec<Decoded> {
    let mut out = Vec::new();
    for b in frame_bits(code, parity) {
        out.extend(pulse_decoder(d, b));
    }
    out
}

fn feed_code(d: &mut Decoder, code: u8) -> Vec<Decoded> {
    feed_frame(d, code, accepted_parity(code))
}

fn events(d: &mut Decoder, codes: &[u8]) -> Vec<Option<KeyEvent>> {
    let mut out = Vec::new();
    for &c in codes {
        let got = feed_code(d, c);
        assert_eq!(got.len(), 1);
        out.push(got[0].event);
    }
    out
}

#[test]
fn eleven_edges_complete_a_frame() {
    for &code in &[0x00u8, 0x1c, 0x5a, 0xaa, 0xe0, 0xf0, 0xff, 0x81] {
        for &parity in &[false, true] {
            let mut f = FrameAssembler::new();
            let bits = frame_bits(code, parity);
            for (i, &b) in bits.iter().enumerate() {
                let (rising, falling) = pulse(&mut f, b);
                assert_eq!(rising, FrameResult::Incomplete);
                if i < 10 {
                    assert_eq!(falling, FrameResult::Incomplete);
                } else {
                    let parity_ok = (code.count_ones() % 2 == 1) == parity;
                    assert_eq!(falling, FrameResult::Complete { code, parity_ok });
                }
            }
        }
    }
}

#[test]
fn frames_follow_one_another() {
    let mut f = FrameAssembler::new();
    let mut results = Vec::new();
    for &code in &[0x12u8, 0x1c, 0xf0] {
        for b in frame_bits(code, true) {
            let (_, falling) = pulse(&mut f, b);
            if falling != FrameResult::Incomplete {
                results.push(falling);
            }
        }
    }
    assert_eq!(
        results,
        vec![
            FrameResult::Complete { code: 0x12, parity_ok: false },
            FrameResult::Complete { code: 0x1c, parity_ok: true },
            FrameResult::Complete { code: 0xf0, parity_ok: false },
        ]
    );
}

#[test]
fn no_falling_edge_takes_no_bit() {
    let mut f = FrameAssembler::new();
    // Clock held low, held high, and rising: none of these is a falling edge.
    for _ in 0..30 {
        assert_eq!(f.sample(false, true), FrameResult::Incomplete);
    }
    for _ in 0..30 {
        assert_eq!(f.sample(true, false), FrameResult::Incomplete);
    }
    // A full frame afterwards still decodes from its first bit.
    let bits = frame_bits(0x5a, false);
    let mut last = FrameResult::Incomplete;
    for b in bits {
        last = pulse(&mut f, b).1;
    }
    assert_eq!(last, FrameResult::Complete { code: 0x5a, parity_ok: true });
}

#[test]
fn fewer_than_eleven_edges_are_incomplete() {
    for n in 0..11 {
        let mut d = Decoder::new();
        let _ = feed_code(&mut d, 0x12);
        let before = d.keys().modifiers();
        let bits = frame_bits(0xf0, false);
        for &b in bits.iter().take(n) {
            assert!(pulse_decoder(&mut d, b).is_empty());
        }
        assert_eq!(d.keys().modifiers(), before);
        assert!(!d.keys().release_pending());
        assert!(!d.keys().extended_pending());
    }
}

#[test]
fn reset_drops_a_partial_frame() {
    let mut f = FrameAssembler::new();
    for &b in frame_bits(0xff, true).iter().take(7) {
        assert_eq!(pulse(&mut f, b).1, FrameResult::Incomplete);
    }
    f.reset();
    let mut last = FrameResult::Incomplete;
    for b in frame_bits(0x1c, accepted_parity(0x1c)) {
        last = pulse(&mut f, b).1;
    }
    assert_eq!(last, FrameResult::Complete { code: 0x1c, parity_ok: true });
}

#[test]
fn letter_a_with_and_without_shift() {
    let mut k = Interpreter::new();
    assert_eq!(k.interpret(0x1c), Some(KeyEvent::Char('a')));
    assert!(!k.extended_pending() && !k.release_pending());
    assert_eq!(k.interpret(0x1c), Some(KeyEvent::Char('a')));
    assert_eq!(k.interpret(0x12), None);
    assert_eq!(k.modifiers(), L_SHIFT);
    assert_eq!(k.interpret(0x1c), Some(KeyEvent::Char('A')));
    assert_eq!(k.interpret(0x1c), Some(KeyEvent::Char('A')));
}

#[test]
fn extended_code_differs_from_bare_code() {
    let mut k = Interpreter::new();
    assert_eq!(k.interpret(0xe0), None);
    assert!(k.extended_pending());
    assert_eq!(k.interpret(0x75), None);
    assert!(!k.extended_pending() && !k.release_pending());
    assert_eq!(k.interpret(0x75), Some(KeyEvent::Char('8')));
    assert!(!k.extended_pending() && !k.release_pending());
}

#[test]
fn left_ctrl_press_and_release() {
    let mut k = Interpreter::new();
    assert_eq!(k.interpret(0x14), None);
    assert_eq!(k.modifiers(), L_CTRL);
    assert_eq!(k.interpret(0xf0), None);
    assert!(k.release_pending());
    assert_eq!(k.interpret(0x14), None);
    assert_eq!(k.modifiers() & L_CTRL, 0);
    assert_eq!(k.modifiers(), 0);
    assert!(!k.extended_pending() && !k.release_pending());
}

#[test]
fn right_ctrl_uses_the_extended_prefix() {
    let mut k = Interpreter::new();
    assert_eq!(k.interpret(0xe0), None);
    assert_eq!(k.interpret(0x14), None);
    assert_eq!(k.modifiers(), R_CTRL);
    assert_eq!(k.interpret(0x21), Some(KeyEvent::Ctrl('c')));
    // Extended release of right ctrl: both prefixes accumulate.
    assert_eq!(k.interpret(0xe0), None);
    assert_eq!(k.interpret(0xf0), None);
    assert!(k.extended_pending() && k.release_pending());
    assert_eq!(k.interpret(0x14), None);
    assert_eq!(k.modifiers(), 0);
    assert!(!k.extended_pending() && !k.release_pending());
}

#[test]
fn qualifier_priority() {
    let mut d = Decoder::new();
    // alt, then x: alt-qualified.
    assert_eq!(events(&mut d, &[0x11, 0x22]), vec![None, Some(KeyEvent::Alt('x'))]);
    // meta held as well: alt still wins.
    assert_eq!(events(&mut d, &[0x1f, 0x22]), vec![None, Some(KeyEvent::Alt('x'))]);
    // ctrl held as well: ctrl wins over both.
    assert_eq!(events(&mut d, &[0x14, 0x22]), vec![None, Some(KeyEvent::Ctrl('x'))]);
    // release ctrl and alt: meta remains.
    assert_eq!(
        events(&mut d, &[0xf0, 0x14, 0xf0, 0x11, 0x22]),
        vec![None, None, None, None, Some(KeyEvent::Meta('x'))]
    );
    // shift with meta: the character is shifted, then qualified.
    assert_eq!(events(&mut d, &[0x59, 0x16]), vec![None, Some(KeyEvent::Meta('!'))]);
    // release everything: plain characters again.
    assert_eq!(
        events(&mut d, &[0xf0, 0x59, 0xe0, 0xf0, 0x27, 0xf0, 0x1f, 0x16]),
        vec![None, None, None, None, None, None, None, Some(KeyEvent::Char('1'))]
    );
    assert_eq!(d.keys().modifiers(), 0);
}

#[test]
fn named_keys() {
    let mut k = Interpreter::new();
    assert_eq!(k.interpret(0x76), Some(KeyEvent::Escape));
    assert_eq!(k.interpret(0x66), Some(KeyEvent::Backspace));
    assert_eq!(k.interpret(0xaa), Some(KeyEvent::SelfTestPassed));
    // Releases of named keys produce nothing.
    for &c in &[0x76u8, 0x66, 0xaa] {
        assert_eq!(k.interpret(0xf0), None);
        assert_eq!(k.interpret(c), None);
        assert!(!k.release_pending());
    }
    // Named keys are recognized after the extended prefix too.
    assert_eq!(k.interpret(0xe0), None);
    assert_eq!(k.interpret(0x76), Some(KeyEvent::Escape));
}

#[test]
fn release_and_unknown_extended_codes_give_nothing() {
    let mut k = Interpreter::new();
    assert_eq!(k.interpret(0xf0), None);
    assert_eq!(k.interpret(0x1c), None);
    assert_eq!(k.interpret(0xe0), None);
    assert_eq!(k.interpret(0x6b), None);
    assert!(!k.extended_pending() && !k.release_pending());
    assert_eq!(k.interpret(0xe0), None);
    assert_eq!(k.interpret(0xe0), None);
    assert_eq!(k.interpret(0x1c), None);
    assert!(!k.extended_pending());
    assert_eq!(k.interpret(0x1c), Some(KeyEvent::Char('a')));
}

#[test]
fn unmapped_code_reads_as_question_mark() {
    let mut k = Interpreter::new();
    assert_eq!(k.interpret(0x01), Some(KeyEvent::Char('?')));
    assert_eq!(char_from_scancode(0x00, false), '?');
    assert_eq!(char_from_scancode(0xff, true), '?');
}

#[test]
fn lookup_table() {
    let letters = "abcdefghijklmnopqrstuvwxyz";
    let codes = [
        0x1c, 0x32, 0x21, 0x23, 0x24, 0x2b, 0x34, 0x33, 0x43, 0x3b, 0x42, 0x4b, 0x3a, 0x31,
        0x44, 0x4d, 0x15, 0x2d, 0x1b, 0x2c, 0x3c, 0x2a, 0x1d, 0x22, 0x35, 0x1a,
    ];
    for (c, &code) in letters.chars().zip(codes.iter()) {
        assert_eq!(char_from_scancode(code, false), c);
        assert_eq!(char_from_scancode(code, true), c.to_ascii_uppercase());
    }
    let row = [
        (0x16, '1', '!'),
        (0x1e, '2', '"'),
        (0x26, '3', '£'),
        (0x25, '4', '$'),
        (0x2e, '5', '%'),
        (0x36, '6', '^'),
        (0x3d, '7', '&'),
        (0x3e, '8', '*'),
        (0x46, '9', '('),
        (0x45, '0', ')'),
        (0x41, ',', '<'),
        (0x49, '.', '>'),
        (0x4a, '/', '?'),
        (0x4c, ';', ':'),
        (0x4e, '-', '_'),
        (0x52, '\'', '@'),
        (0x54, '[', '{'),
        (0x5b, ']', '}'),
        (0x55, '=', '+'),
        (0x5d, '\\', '#'),
        (0x29, ' ', ' '),
        (0x5a, '\n', '\n'),
        (0x0d, '\t', '\t'),
    ];
    for &(code, plain, shifted) in row.iter() {
        assert_eq!(char_from_scancode(code, false), plain);
        assert_eq!(char_from_scancode(code, true), shifted);
    }
    let keypad = [
        (0x69, '1'),
        (0x6b, '4'),
        (0x6c, '7'),
        (0x70, '0'),
        (0x71, '.'),
        (0x72, '2'),
        (0x73, '5'),
        (0x74, '6'),
        (0x75, '8'),
        (0x79, '+'),
        (0x7a, '3'),
        (0x7b, '-'),
        (0x7c, '*'),
        (0x7d, '9'),
    ];
    for &(code, c) in keypad.iter() {
        assert_eq!(char_from_scancode(code, false), c);
        assert_eq!(char_from_scancode(code, true), c);
    }
}

#[test]
fn enter_end_to_end() {
    let mut d = Decoder::new();
    // 0x5A has four bits set, so the accepted parity bit is clear.
    let got = feed_frame(&mut d, 0x5a, false);
    assert_eq!(
        got,
        vec![Decoded { code: 0x5a, parity_ok: true, event: Some(KeyEvent::Char('\n')) }]
    );
    assert_eq!(render_decoded(&got[0]), vec!['\n']);

    let got = feed_frame(&mut d, 0x5a, true);
    assert_eq!(
        got,
        vec![Decoded { code: 0x5a, parity_ok: false, event: Some(KeyEvent::Char('\n')) }]
    );
    let text: String = render_decoded(&got[0]).into_iter().collect();
    assert_eq!(text, "\nPARITY FAIL\n\n");
}

#[test]
fn parity_failure_still_interprets_the_code() {
    let mut d = Decoder::new();
    let got = feed_frame(&mut d, 0x12, !accepted_parity(0x12));
    assert_eq!(got.len(), 1);
    assert!(!got[0].parity_ok);
    assert_eq!(d.keys().modifiers(), L_SHIFT);
}

#[test]
fn event_text() {
    let text = |e: KeyEvent| -> String { render_event(e).into_iter().collect() };
    assert_eq!(text(KeyEvent::Char('q')), "q");
    assert_eq!(text(KeyEvent::Ctrl('c')), "<C-c>");
    assert_eq!(text(KeyEvent::Alt('x')), "<M-x>");
    assert_eq!(text(KeyEvent::Meta('!')), "<S-!>");
    assert_eq!(text(KeyEvent::Escape), "[ESC]");
    assert_eq!(text(KeyEvent::Backspace), "\u{8} \u{8}");
    assert_eq!(text(KeyEvent::SelfTestPassed), "Self-test passed\n");
    let fail: String = render_parity_fail().into_iter().collect();
    assert_eq!(fail, "\nPARITY FAIL\n");
    let none = Decoded { code: 0xf0, parity_ok: true, event: None };
    assert!(render_decoded(&none).is_empty());
}
