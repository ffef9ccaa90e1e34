use iq_calc::loword;
use iq_calc::message::{dialog_text, result_message, CAPTURE_UNITS};
use iq_calc::utf16::{decode, REPLACEMENT};

#[test]
fn decode_stops_at_first_nul() {
    assert_eq!(decode(&[0x31, 0x32, 0x30, 0]), "120");
    assert_eq!(decode(&[0x31, 0, 0x32, 0x33]), "1");
}

#[test]
fn decode_empty_field() {
    assert_eq!(decode(&[0, 0, 0, 0]), "");
    assert_eq!(decode(&[]), "");
}

#[test]
fn decode_full_buffer_without_nul() {
    assert_eq!(decode(&[0x31, 0x32, 0x33, 0x34]), "1234");
}

#[test]
fn decode_surrogate_pair() {
    assert_eq!(decode(&[0xD83D, 0xDE00, 0, 0]), "\u{1F600}");
    assert_eq!(decode(&[0xDBFF, 0xDFFF]), "\u{10FFFF}");
}

#[test]
fn decode_lone_high_surrogate_is_replaced() {
    let expected: String = [REPLACEMENT, 'A'].iter().collect();
    assert_eq!(decode(&[0xD800, 0x41, 0, 0]), expected);
    assert_eq!(decode(&[0x41, 0xD800]), "A\u{FFFD}");
}

#[test]
fn decode_lone_low_surrogates_each_replaced() {
    assert_eq!(decode(&[0xDC00, 0xDC01, 0, 0]), "\u{FFFD}\u{FFFD}");
    assert_eq!(decode(&[0xDFFF, 0xD800, 0xDC00, 0]), "\u{FFFD}\u{10000}");
}

#[test]
fn decode_non_ascii_unit() {
    assert_eq!(decode(&[0x3042, 0xFFFF, 0]), "\u{3042}\u{FFFF}");
}

#[test]
fn result_message_fills_template() {
    assert_eq!(result_message("120"), "あなたの IQ は 120 です！");
    assert_eq!(result_message(""), "あなたの IQ は  です！");
}

#[test]
fn dialog_text_for_typed_120() {
    let mut buf = [0u16; CAPTURE_UNITS];
    for (i, u) in "120".encode_utf16().enumerate() {
        buf[i] = u;
    }
    assert_eq!(dialog_text(&buf), "あなたの IQ は 120 です！");
}

#[test]
fn dialog_text_for_empty_field() {
    let buf = [0u16; CAPTURE_UNITS];
    assert_eq!(dialog_text(&buf), "あなたの IQ は  です！");
}

#[test]
fn dialog_text_for_short_numbers() {
    for n in ["0", "7", "42", "999"] {
        let mut buf = [0u16; CAPTURE_UNITS];
        for (i, u) in n.encode_utf16().enumerate() {
            buf[i] = u;
        }
        assert_eq!(dialog_text(&buf), format!("あなたの IQ は {n} です！"));
    }
}

#[test]
fn dialog_text_for_filled_buffer() {
    assert_eq!(dialog_text(&[0x31, 0x32, 0x33, 0x34]), "あなたの IQ は 1234 です！");
}

#[test]
fn dialog_text_with_invalid_units() {
    assert_eq!(dialog_text(&[0xDC00, 0x35, 0, 0]), "あなたの IQ は \u{FFFD}5 です！");
}

#[test]
fn loword_keeps_low_half() {
    assert_eq!(loword(0x1234_5678), 0x5678);
    assert_eq!(loword(43), 43);
    assert_eq!(loword(0xFFFF_FFFF), 0xFFFF);
    assert_eq!(loword(0x0001_0000), 0);
}
