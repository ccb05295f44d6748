use calculadora_construcao::calculator::{Calculator, HistoryEntry, Operator};
use calculadora_construcao::decimal::DecimalValue;

fn keys(c: &mut Calculator, s: &str) {
    for k in s.chars() {
        c.press(k);
    }
}

#[test]
fn adds_and_records_history() {
    let mut c = Calculator::new();
    keys(&mut c, "2+3=");
    assert_eq!(c.display, "5");
    assert_eq!(c.history_text(), vec!["2 + 3 = 5".to_string()]);
}

#[test]
fn division_by_zero_gives_zero() {
    let mut c = Calculator::new();
    keys(&mut c, "5/0=");
    assert_eq!(c.display, "0");
    assert_eq!(c.history_text()[0], "5 / 0 = 0");
}

#[test]
fn history_keeps_the_last_ten() {
    let mut c = Calculator::new();
    for i in 0..11 {
        keys(&mut c, &format!("{}+1=", i));
        keys(&mut c, "c");
    }
    let h = c.history_text();
    assert_eq!(h.len(), 10);
    assert_eq!(h[0], "10 + 1 = 11");
    assert_eq!(h[9], "1 + 1 = 2");
    assert!(!h.contains(&"0 + 1 = 1".to_string()));
}

#[test]
fn operators_chain() {
    let mut c = Calculator::new();
    keys(&mut c, "2+3*");
    assert_eq!(c.display, "5");
    keys(&mut c, "4=");
    assert_eq!(c.display, "20");
    keys(&mut c, "-6=");
    assert_eq!(c.display, "14");
    keys(&mut c, "/4=");
    assert_eq!(c.display, "3.50");
    assert_eq!(c.history_text()[0], "14 / 4 = 3.50");
    assert_eq!(c.history.len(), 4);
    assert_eq!(c.history[0].op, Operator::Divide);
}

#[test]
fn evaluation_result_feeds_next_operation() {
    let mut c = Calculator::new();
    keys(&mut c, "1.5*2=");
    assert_eq!(c.display, "3.0");
    keys(&mut c, "+1=");
    assert_eq!(c.display, "4.0");
}

#[test]
fn digits_points_and_leading_zero() {
    let mut c = Calculator::new();
    keys(&mut c, "07");
    assert_eq!(c.display, "7");
    keys(&mut c, "c0.5.2");
    assert_eq!(c.display, "0.52");
    keys(&mut c, "c..");
    assert_eq!(c.display, "0.");
}

#[test]
fn backspace_clear_memory_and_other_keys() {
    let mut c = Calculator::new();
    keys(&mut c, "123\u{8}");
    assert_eq!(c.display, "12");
    keys(&mut c, "\u{8}\u{8}");
    assert_eq!(c.display, "0");
    keys(&mut c, "9+");
    c.press('x');
    assert_eq!(c.display, "9");
    keys(&mut c, "C");
    assert_eq!(c.display, "0");
    assert!(c.pending.is_none());
    keys(&mut c, "4m");
    assert_eq!(c.display, "0");
    keys(&mut c, "=");
    assert!(c.history.is_empty());
}

#[test]
fn malformed_display_reads_as_zero() {
    let mut c = Calculator::new();
    c.set_display(&"abc".to_string());
    keys(&mut c, "+2\n");
    assert_eq!(c.display, "2");
}

#[test]
fn subtraction_and_entry_text() {
    let mut c = Calculator::new();
    keys(&mut c, "5-8=");
    assert_eq!(c.display, "-3");
    let e = HistoryEntry {
        left: DecimalValue { mantissa: 25, scale: 1 },
        op: Operator::Multiply,
        right: DecimalValue { mantissa: 4, scale: 0 },
        result: DecimalValue { mantissa: 100, scale: 1 },
    };
    assert_eq!(e.text(), "2.5 * 4 = 10.0");
}
