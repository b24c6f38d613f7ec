use calculator::{key_message, Msg, Operator};

#[test]
fn top_row_digits_without_shift() {
    for d in 0..=9u32 {
        assert_eq!(key_message(48 + d, false), Some(Msg::ClickNumber(d as u8)));
    }
}

#[test]
fn number_pad_digits_with_or_without_shift() {
    for d in 0..=9u32 {
        assert_eq!(key_message(96 + d, false), Some(Msg::ClickNumber(d as u8)));
        assert_eq!(key_message(96 + d, true), Some(Msg::ClickNumber(d as u8)));
    }
}

#[test]
fn shifted_top_row_is_no_digit() {
    for d in 0..=9u32 {
        let expected = if d == 8 { Some(Msg::ClickOperator(Operator::Mul)) } else { None };
        assert_eq!(key_message(48 + d, true), expected);
    }
}

#[test]
fn operator_keys() {
    assert_eq!(key_message(106, false), Some(Msg::ClickOperator(Operator::Mul)));
    assert_eq!(key_message(106, true), Some(Msg::ClickOperator(Operator::Mul)));
    assert_eq!(key_message(111, false), Some(Msg::ClickOperator(Operator::Div)));
    assert_eq!(key_message(111, true), Some(Msg::ClickOperator(Operator::Div)));
    assert_eq!(key_message(191, false), Some(Msg::ClickOperator(Operator::Div)));
    assert_eq!(key_message(191, true), None);
    assert_eq!(key_message(107, false), Some(Msg::ClickOperator(Operator::Add)));
    assert_eq!(key_message(107, true), Some(Msg::ClickOperator(Operator::Add)));
    assert_eq!(key_message(187, true), Some(Msg::ClickOperator(Operator::Add)));
    assert_eq!(key_message(109, false), Some(Msg::ClickOperator(Operator::Sub)));
    assert_eq!(key_message(109, true), Some(Msg::ClickOperator(Operator::Sub)));
    assert_eq!(key_message(189, false), Some(Msg::ClickOperator(Operator::Sub)));
    assert_eq!(key_message(189, true), None);
}

#[test]
fn editing_keys() {
    assert_eq!(key_message(110, false), Some(Msg::ClickDot));
    assert_eq!(key_message(110, true), Some(Msg::ClickDot));
    assert_eq!(key_message(190, false), Some(Msg::ClickDot));
    assert_eq!(key_message(190, true), None);
    assert_eq!(key_message(13, false), Some(Msg::Calculate));
    assert_eq!(key_message(13, true), Some(Msg::Calculate));
    assert_eq!(key_message(187, false), Some(Msg::Calculate));
    assert_eq!(key_message(8, false), Some(Msg::Backspace));
    assert_eq!(key_message(8, true), Some(Msg::Backspace));
    assert_eq!(key_message(46, false), Some(Msg::Clear));
    assert_eq!(key_message(46, true), Some(Msg::Clear));
}

#[test]
fn other_keys_mean_nothing() {
    for key_code in [0, 7, 9, 12, 14, 32, 45, 47, 58, 65, 95, 108, 112, 186, 188, 192, 1000, u32::MAX] {
        assert_eq!(key_message(key_code, false), None);
        assert_eq!(key_message(key_code, true), None);
    }
}

#[test]
fn every_key_message_carries_a_digit_or_none() {
    for key_code in 0..400u32 {
        for shift in [false, true] {
            if let Some(msg) = key_message(key_code, shift) {
                assert!(msg.is_wf());
                assert!(!matches!(msg, Msg::LoadFromHistory(_)));
            }
        }
    }
}

#[test]
fn operator_symbols_and_glyphs() {
    assert_eq!(Operator::Mul.symbol(), " * ");
    assert_eq!(Operator::Div.symbol(), " / ");
    assert_eq!(Operator::Add.symbol(), " + ");
    assert_eq!(Operator::Sub.symbol(), " - ");
    assert_eq!(Operator::Mul.glyph(), "*");
    assert_eq!(Operator::Div.glyph(), "/");
    assert_eq!(Operator::Add.glyph(), "+");
    assert_eq!(Operator::Sub.glyph(), "-");
    for operator in [Operator::Mul, Operator::Div, Operator::Add, Operator::Sub] {
        assert_eq!(operator.symbol().trim(), operator.glyph());
    }
}

#[test]
fn key_labels() {
    assert_eq!(Msg::Calculate.label(), "=");
    assert_eq!(Msg::ClickOperator(Operator::Mul).label(), "*");
    assert_eq!(Msg::ClickOperator(Operator::Div).label(), "/");
    assert_eq!(Msg::ClickOperator(Operator::Add).label(), "+");
    assert_eq!(Msg::ClickOperator(Operator::Sub).label(), "-");
    assert_eq!(Msg::ClickDot.label(), ".");
    assert_eq!(Msg::Backspace.label(), "B");
    assert_eq!(Msg::Clear.label(), "AC");
    assert_eq!(Msg::ClickNumber(3).label(), "");
    assert_eq!(Msg::LoadFromHistory(0).label(), "");
}

#[test]
fn digit_keys_carry_digits() {
    assert!(Msg::ClickNumber(0).is_wf());
    assert!(Msg::ClickNumber(9).is_wf());
    assert!(!Msg::ClickNumber(10).is_wf());
    assert!(!Msg::ClickNumber(255).is_wf());
    assert!(Msg::Calculate.is_wf());
    assert!(Msg::LoadFromHistory(usize::MAX).is_wf());
}
