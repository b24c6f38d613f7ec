use calculator::numeral::{
    digit_str, recognize_draft, recognize_numeral, recognize_rendering, shown_result,
};
use calculator::{Calculation, Evaluation, Operand, Operator};

#[test]
fn digit_str_names_each_digit() {
    let expected = ["0", "1", "2", "3", "4", "5", "6", "7", "8", "9"];
    for d in 0..=9u8 {
        assert_eq!(digit_str(d), expected[d as usize]);
    }
}

#[test]
fn drafts_are_recognised() {
    for text in ["0", "12", "12.", "1.5", ".5", ".", "-", "-.", "-3", "-3.25", "007"] {
        assert!(recognize_draft(text), "{text}");
    }
    for text in ["", "1..2", "1.2.3", "--1", "1-", "3-4", "+1", "1e5", " 1", "1 ", "inf", "NaN", "١"] {
        assert!(!recognize_draft(text), "{text}");
    }
}

#[test]
fn numerals_are_recognised() {
    for text in ["0", "12", "1.5", "-3", "-3.25", "-0", "0.30000000000000004", "100000000000000000000"] {
        assert!(recognize_numeral(text), "{text}");
    }
    for text in ["", "12.", ".5", ".", "-", "-.", "-.5", "1..2", "1e5", "inf", "-inf", "NaN", "Error", "5 ", "٣"] {
        assert!(!recognize_numeral(text), "{text}");
    }
}

#[test]
fn renderings_are_recognised() {
    for text in ["0", "-1.5", "NaN", "inf", "-inf"] {
        assert!(recognize_rendering(text), "{text}");
    }
    for text in ["", "nan", "Inf", "+inf", "infinity", "-NaN", "Error", "1.", "in", "-in", "inff", "NaNN", "é"] {
        assert!(!recognize_rendering(text), "{text}");
    }
}

#[test]
fn evaluation_asks_for_renderings() {
    let e = Evaluation::new("5", "0", "inf").unwrap();
    assert_eq!(e.operand_1(), "5");
    assert_eq!(e.operand_2(), "0");
    assert_eq!(e.result(), "inf");
    assert!(!e.is_finite());
    let e = Evaluation::new("-2.5", "4", "-10").unwrap();
    assert!(e.is_finite());
    assert_eq!(e.result(), "-10");
    let e = Evaluation::new("inf", "-inf", "NaN").unwrap();
    assert_eq!(e.operand_1(), "inf");
    assert_eq!(e.operand_2(), "-inf");
    assert_eq!(e.result(), "NaN");
    assert!(!e.is_finite());
    let e = Evaluation::new("3", "inf", "0").unwrap();
    assert!(e.is_finite());
    assert!(Evaluation::new("1", "2", "Error").is_none());
    assert!(Evaluation::new("Error", "2", "3").is_none());
    assert!(Evaluation::new("1", "infinity", "3").is_none());
    assert!(Evaluation::new("1.", "2", "3").is_none());
    assert!(Evaluation::new("1", "", "1").is_none());
}

#[test]
fn calculation_records_an_evaluation() {
    let e = Evaluation::new("5", "2", "2.5").unwrap();
    let c = Calculation::record(&e, Operator::Div);
    assert_eq!(c.operand_1(), "5");
    assert_eq!(c.operator(), Operator::Div);
    assert_eq!(c.operand_2(), "2");
    assert_eq!(c.result(), "2.5");
    assert_eq!(c.line(), "5 / 2 = 2.5");
    let e = Evaluation::new("-1", "-2", "2").unwrap();
    assert_eq!(Calculation::record(&e, Operator::Mul).line(), "-1 * -2 = 2");
    assert_eq!(Calculation::record(&e, Operator::Add).line(), "-1 + -2 = 2");
    assert_eq!(Calculation::record(&e, Operator::Sub).line(), "-1 - -2 = 2");
}

#[test]
fn operand_starts_at_zero() {
    let o = Operand::zero();
    assert_eq!(o.text(), "0");
    assert_eq!(o.len(), 1);
    assert!(o.is_zero());
    assert!(!o.has_dot());
}

#[test]
fn operand_parse_takes_drafts_only() {
    assert_eq!(Operand::parse("-12.").unwrap().text(), "-12.");
    assert_eq!(Operand::parse("-").unwrap().text(), "-");
    assert!(Operand::parse("").is_none());
    assert!(Operand::parse("1.2.3").is_none());
    assert!(Operand::parse("inf").is_none());
    assert!(Operand::parse("12a").is_none());
}

#[test]
fn operand_from_rendering_starts_at_zero_where_not_finite() {
    assert_eq!(Operand::from_rendering("12.5").text(), "12.5");
    assert_eq!(Operand::from_rendering("-3").text(), "-3");
    for text in ["inf", "-inf", "NaN", "", "12.", "Error"] {
        assert_eq!(Operand::from_rendering(text).text(), "0", "{text}");
    }
}

#[test]
fn shown_result_is_numeral_or_error() {
    assert_eq!(shown_result("0"), "0");
    assert_eq!(shown_result("-2.5"), "-2.5");
    for text in ["inf", "-inf", "NaN", "", "1.", "Error"] {
        assert_eq!(shown_result(text), "Error", "{text}");
    }
}

#[test]
fn operand_is_zero_looks_at_digits() {
    for text in ["0", "00", "0.", "0.0", "-0", "-0.00", ".0"] {
        assert!(Operand::parse(text).unwrap().is_zero(), "{text}");
    }
    for text in ["1", "10", "0.01", "-0.5", "-", ".", "-.", "100", "0.10"] {
        assert!(!Operand::parse(text).unwrap().is_zero(), "{text}");
    }
}

#[test]
fn operand_has_dot_finds_the_decimal_point() {
    for text in ["0.", "1.5", ".", "-.", "-3.0"] {
        assert!(Operand::parse(text).unwrap().has_dot(), "{text}");
    }
    for text in ["0", "15", "-", "-30"] {
        assert!(!Operand::parse(text).unwrap().has_dot(), "{text}");
    }
}

#[test]
fn operand_enter_digit_replaces_or_appends() {
    let mut o = Operand::zero();
    o.enter_digit(0, false);
    assert_eq!(o.text(), "0");
    o.enter_digit(3, false);
    assert_eq!(o.text(), "3");
    o.enter_digit(0, false);
    assert_eq!(o.text(), "30");
    o.enter_digit(9, true);
    assert_eq!(o.text(), "9");
    let mut o = Operand::parse("-0").unwrap();
    o.enter_digit(4, false);
    assert_eq!(o.text(), "4");
    let mut o = Operand::parse("0.").unwrap();
    o.enter_digit(4, false);
    assert_eq!(o.text(), "0.4");
    let mut o = Operand::parse("-").unwrap();
    o.enter_digit(4, false);
    assert_eq!(o.text(), "-4");
    assert_eq!(o.len(), 2);
}

#[test]
fn operand_enter_dot_appends_one_dot() {
    let mut o = Operand::parse("12").unwrap();
    o.enter_dot();
    assert_eq!(o.text(), "12.");
    o.enter_dot();
    assert_eq!(o.text(), "12.");
    o.enter_digit(5, false);
    o.enter_dot();
    assert_eq!(o.text(), "12.5");
}

#[test]
fn operand_backspace_never_empties() {
    let mut o = Operand::parse("1.5").unwrap();
    o.backspace(false);
    assert_eq!(o.text(), "1.");
    o.backspace(false);
    assert_eq!(o.text(), "1");
    o.backspace(false);
    assert_eq!(o.text(), "0");
    o.backspace(false);
    assert_eq!(o.text(), "0");
    let mut o = Operand::parse("123").unwrap();
    o.backspace(true);
    assert_eq!(o.text(), "0");
    let mut o = Operand::parse("-").unwrap();
    o.backspace(false);
    assert_eq!(o.text(), "0");
}

#[test]
fn operand_reset_gives_zero() {
    let mut o = Operand::parse("-12.5").unwrap();
    o.reset();
    assert_eq!(o.text(), "0");
}
