use evalexpr::literal::{chars_of, is_float, parse_bool};

#[test]
fn float_grammar_agrees_with_the_host() {
    let texts = [
        "", "+", "-", ".", "+.", "-.", "0", "1", "+1", "-1", "1.", ".1", "1.1", "+1.5", "-1.5",
        "1e5", "1E5", "1e+5", "1e-5", "1e", "1e+", "1e-", "e5", ".e5", "1.e5", ".5e5", "1.5e5x",
        "1..5", "1.5.", "inf", "+inf", "-inf", "INF", "Inf", "infinity", "INFINITY", "InFiNiTy",
        "-infinity", "infinit", "infinityy", "nan", "NaN", "NAN", "+nan", "-nan", "nann", "na",
        "in", " 1", "1 ", "1_0", "0x10", "1f", "1.0f64", "++1", "+-1", "--1", "1e5.5", "1e5e5",
        "١٢٣", "１", "é", "ınf", "00.00", "1e0000000000000000000000000001",
        "123456789012345678901234567890", "i", "n", "abcdefgh", "abc",
    ];
    for text in texts {
        assert_eq!(is_float(text), text.parse::<f64>().is_ok(), "{:?}", text);
    }
}

#[test]
fn float_literal_examples() {
    assert!(is_float("1.5"));
    assert!(is_float("-.5e-3"));
    assert!(is_float("nan"));
    assert!(!is_float(""));
    assert!(!is_float("1.5 "));
    assert!(!is_float("one"));
}

#[test]
fn boolean_literals_are_exact() {
    assert_eq!(parse_bool("true"), Some(true));
    assert_eq!(parse_bool("false"), Some(false));
    for text in ["", "True", "FALSE", "true ", "tru", "falsee", "1", "yes"] {
        assert_eq!(parse_bool(text), None);
        assert_eq!(parse_bool(text), text.parse::<bool>().ok());
    }
}

#[test]
fn characters_in_order() {
    assert_eq!(chars_of(""), Vec::<char>::new());
    assert_eq!(chars_of("aé1"), vec!['a', 'é', '1']);
}

#[test]
fn float_grammar_agrees_with_the_host_on_short_texts() {
    let alphabet = ['1', '.', 'e', 'E', '+', '-', 'i', 'n', 'f', 'a', 'N'];
    let mut texts = vec![String::new()];
    let mut from = 0;
    for _ in 0..5 {
        let upto = texts.len();
        for index in from..upto {
            for c in alphabet {
                let mut text = texts[index].clone();
                text.push(c);
                texts.push(text);
            }
        }
        from = upto;
    }
    for text in &texts {
        assert_eq!(is_float(text), text.parse::<f64>().is_ok(), "{:?}", text);
    }
    for tail in ["infinity", "Infinity", "INFINITY", "infinitY", "infinitx", "nfinityi"] {
        for sign in ["", "+", "-", "+-"] {
            let text = format!("{}{}", sign, tail);
            assert_eq!(is_float(&text), text.parse::<f64>().is_ok(), "{:?}", text);
        }
    }
}
