use ns_base::atom::{format_integer, parse_integer, Atom};
use ns_base::scalar::{FloatBits, Scalar, ScalarValue};
use ns_base::value::{Value, Vector};

#[test]
fn scalar_test() {
    let v1 = Atom::Integer(0);
    assert!(Scalar::<i128>::is_scalar(&v1));
    assert!(Scalar::<i128>::is_scalar(&v1));
    assert!(v1.is_integer());
    assert!(!v1.is_text());

    let v2 = Atom::Text("123".into());
    assert!(Scalar::<String>::is_scalar(&v2));
    assert!(Scalar::<String>::is_scalar(&v2));
    assert!(v2.is_text());
    assert!(!v2.is_integer());

    assert_eq!(Scalar::<i128>::scalar(&v1), Some(&0));
    assert_eq!(Scalar::<String>::scalar(&v2), Some(&"123".to_string()));
    assert_eq!(Scalar::<i128>::to_scalar(&v1), Some(0));
    assert_eq!(v1.integer(), Some(0));
    assert_eq!(Scalar::<String>::to_scalar(&v2), Some("123".to_string()));
    assert_eq!(v2.text(), Some("123"));
    assert_eq!(Scalar::<String>::as_scalar(&v1), Some("0".to_string()));
    assert_eq!(v1.as_text(), Some("0".to_string()));
    assert_eq!(Scalar::<i128>::as_scalar(&v2), Some(123));
    assert_eq!(v2.as_integer(), Some(123));
}

#[test]
fn text_in_a_sequence_coerces_to_integer() {
    let v: Vec<Value<Atom, ()>> = vec![Value::Scalar(Atom::Text("123".to_string()))];
    let first = Vector::<usize, Value<Atom, ()>>::get(&v, &0);
    match first {
        Some(Value::Scalar(x)) => {
            assert!(x.is_text());
            assert!(!x.is_integer());
            assert_eq!(Scalar::<i128>::to_scalar(x), None);
            assert_eq!(Scalar::<i128>::as_scalar(x), Some(123));
        }
        _ => panic!("element 0 is a scalar"),
    }
}

#[test]
fn exact_extraction_needs_the_stored_kind() {
    let all = [
        Atom::Integer(5),
        Atom::Float(FloatBits { bits: 0x4014_0000_0000_0000 }),
        Atom::Text("5".to_string()),
        Atom::Binary(vec![5]),
    ];
    let kinds: Vec<[bool; 4]> = all
        .iter()
        .map(|a| [a.is_integer(), a.is_float(), a.is_text(), a.is_binary()])
        .collect();
    assert_eq!(
        kinds,
        vec![
            [true, false, false, false],
            [false, true, false, false],
            [false, false, true, false],
            [false, false, false, true],
        ]
    );
    assert_eq!(all[0].integer(), Some(5));
    assert_eq!(all[1].integer(), None);
    assert_eq!(all[2].integer(), None);
    assert_eq!(all[3].integer(), None);
    assert_eq!(all[1].float(), Some(FloatBits { bits: 0x4014_0000_0000_0000 }));
    assert_eq!(all[0].float(), None);
    assert_eq!(all[2].text(), Some("5"));
    assert_eq!(all[0].text(), None);
    assert_eq!(all[3].binary(), Some(&[5u8][..]));
    assert_eq!(all[2].binary(), None);
    assert_eq!(Scalar::<Vec<u8>>::to_scalar(&all[3]), Some(vec![5u8]));
    assert_eq!(Scalar::<Vec<u8>>::scalar(&all[3]), Some(&vec![5u8]));
    assert_eq!(Scalar::<FloatBits>::scalar(&all[0]), None);
}

#[test]
fn whatever_extracts_exactly_also_coerces() {
    let all = [
        Atom::Integer(-17),
        Atom::Float(FloatBits { bits: 1 }),
        Atom::Text("-17".to_string()),
        Atom::Binary(vec![1, 2, 3]),
    ];
    for a in all.iter() {
        if let Some(n) = a.integer() {
            assert_eq!(a.as_integer(), Some(n));
        }
        if let Some(x) = a.float() {
            assert_eq!(a.as_float(), Some(x));
        }
        if let Some(t) = a.text() {
            assert_eq!(a.as_text(), Some(t.to_string()));
        }
        if let Some(b) = a.binary() {
            assert_eq!(a.as_binary(), Some(b.to_vec()));
        }
    }
    assert_eq!(all[2].integer(), None);
    assert_eq!(all[2].as_integer(), Some(-17));
    assert_eq!(all[0].text(), None);
    assert_eq!(all[0].as_text(), Some("-17".to_string()));
}

#[test]
fn coercion_that_is_not_defined_is_absent() {
    assert_eq!(Atom::Binary(vec![49]).as_integer(), None);
    assert_eq!(Atom::Binary(vec![49]).as_text(), None);
    assert_eq!(Atom::Float(FloatBits { bits: 0 }).as_integer(), None);
    assert_eq!(Atom::Float(FloatBits { bits: 0 }).as_text(), None);
    assert_eq!(Atom::Integer(1).as_float(), None);
    assert_eq!(Atom::Text("1".to_string()).as_float(), None);
    assert_eq!(Atom::Integer(1).as_binary(), None);
    assert_eq!(Atom::Text("1".to_string()).as_binary(), None);
}

#[test]
fn text_to_integer_follows_the_decimal_grammar() {
    let parse = |s: &str| Atom::Text(s.to_string()).as_integer();
    assert_eq!(parse("0"), Some(0));
    assert_eq!(parse("+7"), Some(7));
    assert_eq!(parse("-7"), Some(-7));
    assert_eq!(parse("-0"), Some(0));
    assert_eq!(parse("007"), Some(7));
    assert_eq!(parse(""), None);
    assert_eq!(parse("-"), None);
    assert_eq!(parse("+"), None);
    assert_eq!(parse("12a"), None);
    assert_eq!(parse(" 12"), None);
    assert_eq!(parse("12 "), None);
    assert_eq!(parse("1_000"), None);
    assert_eq!(parse("--1"), None);
    assert_eq!(parse("1.0"), None);
    assert_eq!(parse("abc"), None);
}

#[test]
fn text_to_integer_stops_at_the_range() {
    let parse = |s: &str| Atom::Text(s.to_string()).as_integer();
    assert_eq!(parse("170141183460469231731687303715884105727"), Some(i128::MAX));
    assert_eq!(parse("170141183460469231731687303715884105728"), None);
    assert_eq!(parse("-170141183460469231731687303715884105728"), Some(i128::MIN));
    assert_eq!(parse("-170141183460469231731687303715884105729"), None);
}

#[test]
fn integer_to_text_is_plain_decimal() {
    assert_eq!(Atom::Integer(0).as_text(), Some("0".to_string()));
    assert_eq!(Atom::Integer(9).as_text(), Some("9".to_string()));
    assert_eq!(Atom::Integer(10).as_text(), Some("10".to_string()));
    assert_eq!(Atom::Integer(-45).as_text(), Some("-45".to_string()));
    assert_eq!(
        Atom::Integer(i128::MIN).as_text(),
        Some("-170141183460469231731687303715884105728".to_string())
    );
    assert_eq!(
        Atom::Integer(i128::MAX).as_text(),
        Some("170141183460469231731687303715884105727".to_string())
    );
}

#[test]
fn parse_and_format_agree_with_the_standard_library() {
    let samples: [i128; 9] = [0, 1, -1, 9, 10, -10, 1234567890123456789, i128::MAX, i128::MIN];
    for n in samples.iter() {
        assert_eq!(format_integer(*n), n.to_string());
        assert_eq!(parse_integer(&n.to_string()), Some(*n));
    }
    let texts = ["", "+", "-", "+0", "-0", "00", "1e3", "0x10", "１２", "٣", "1\u{0}", "9".repeat(60).as_str()]
        .map(|s| s.to_string());
    for t in texts.iter() {
        assert_eq!(parse_integer(t), t.parse::<i128>().ok());
    }
}

#[test]
fn written_integers_read_back() {
    let samples: [i128; 7] = [0, 7, -7, 100, -100, i128::MAX, i128::MIN];
    for n in samples.iter() {
        let text = Atom::Integer(*n).as_text();
        assert_eq!(text, Some(format_integer(*n)));
        assert_eq!(Atom::Text(text.unwrap()).as_integer(), Some(*n));
    }
}

#[test]
fn parse_rejects_what_is_not_ascii() {
    assert_eq!(parse_integer("12\u{e9}"), None);
    assert_eq!(parse_integer("\u{2212}5"), None);
    assert_eq!(Atom::Text("\u{661}".to_string()).as_integer(), None);
}
