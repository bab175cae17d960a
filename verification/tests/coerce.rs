use kv_value::coerce::{coerce_filled, Coerce, Coerced};
use kv_value::{Fill, Primitive, Slot, Value, VisitError, Visitor};
use std::fmt;

struct Shown;

impl fmt::Display for Shown {
    fn fmt(&self, f: &mut fmt::Formatter) -> fmt::Result {
        f.write_str("42")
    }
}

struct Text(&'static str);

impl Fill for Text {
    fn fill<'v>(&'v self, slot: &mut Slot<'v>) -> Result<(), VisitError> {
        slot.fill(Value::from(self.0))
    }
}

struct Number(u64);

impl Fill for Number {
    fn fill<'v>(&'v self, slot: &mut Slot<'v>) -> Result<(), VisitError> {
        slot.fill(Value::from(self.0))
    }
}

struct Refusing;

impl Fill for Refusing {
    fn fill<'v>(&'v self, _: &mut Slot<'v>) -> Result<(), VisitError> {
        Err(VisitError::msg("nothing to give"))
    }
}

#[test]
fn unsigned_round_trip() {
    assert_eq!(Value::from(42u64).as_u64(), Some(42));
    assert_eq!(Value::from(0u64).as_u64(), Some(0));
    assert_eq!(Value::from(u64::MAX).as_u64(), Some(u64::MAX));
}

#[test]
fn signed_round_trip() {
    assert_eq!(Value::from(-42i64).as_i64(), Some(-42));
    assert_eq!(Value::from(i64::MIN).as_i64(), Some(i64::MIN));
    assert_eq!(Value::from(i64::MAX).as_i64(), Some(i64::MAX));
}

#[test]
fn float_round_trip_keeps_every_bit() {
    let bits = 1.5f64.to_bits();
    assert_eq!(Value::from_f64_bits(bits).as_f64_bits(), Some(bits));
    let nan = f64::NAN.to_bits();
    assert_eq!(Value::from_f64_bits(nan).as_f64_bits(), Some(nan));
    let negative_zero = (-0.0f64).to_bits();
    assert_eq!(
        Value::from_f64_bits(negative_zero).as_f64_bits(),
        Some(0x8000_0000_0000_0000)
    );
}

#[test]
fn bool_round_trip() {
    assert_eq!(Value::from(true).as_bool(), Some(true));
    assert_eq!(Value::from(false).as_bool(), Some(false));
}

#[test]
fn char_round_trip() {
    assert_eq!(Value::from('a').as_char(), Some('a'));
    assert_eq!(Value::from('\u{10ffff}').as_char(), Some('\u{10ffff}'));
}

#[test]
fn str_round_trip() {
    assert_eq!(Value::from("a string").as_str(), Some("a string"));
    assert_eq!(Value::from("").as_str(), Some(""));
    assert_eq!(
        Value::from("a string").to_str(),
        Some("a string".to_owned())
    );
}

#[test]
fn primitive_is_captured_as_it_is() {
    assert_eq!(Value::from(Primitive::Unsigned(7)).as_u64(), Some(7));
    assert_eq!(Value::from(Primitive::Absent).as_u64(), None);
}

#[test]
fn mismatched_projection_is_absent() {
    let value = Value::from(true);
    assert_eq!(value.as_u64(), None);
    assert_eq!(value.as_i64(), None);
    assert_eq!(value.as_f64_bits(), None);
    assert_eq!(value.as_char(), None);
    assert_eq!(value.as_str(), None);
    assert_eq!(value.to_str(), None);
}

#[test]
fn numbers_are_not_widened_or_narrowed() {
    assert_eq!(Value::from(42u64).as_i64(), None);
    assert_eq!(Value::from(42u64).as_f64_bits(), None);
    assert_eq!(Value::from(42i64).as_u64(), None);
    assert_eq!(Value::from(42i64).as_f64_bits(), None);
    assert_eq!(Value::from_f64_bits(42f64.to_bits()).as_u64(), None);
    assert_eq!(Value::from_f64_bits(42f64.to_bits()).as_i64(), None);
    assert_eq!(Value::from('4').as_u64(), None);
    assert_eq!(Value::from("42").as_u64(), None);
}

#[test]
fn absence_projects_to_nothing() {
    let value = Value::absent();
    assert_eq!(value.as_u64(), None);
    assert_eq!(value.as_i64(), None);
    assert_eq!(value.as_f64_bits(), None);
    assert_eq!(value.as_bool(), None);
    assert_eq!(value.as_char(), None);
    assert_eq!(value.as_str(), None);
    assert_eq!(value.to_str(), None);
}

#[test]
fn debug_only_value_projects_to_nothing() {
    let value = Value::from_debug(&42u64);
    assert_eq!(value.as_u64(), None);
    assert_eq!(value.as_i64(), None);
    assert_eq!(value.as_f64_bits(), None);
    assert_eq!(value.as_bool(), None);
    assert_eq!(value.as_char(), None);
    assert_eq!(value.as_str(), None);
    assert_eq!(value.to_str(), None);
}

#[test]
fn display_only_value_projects_to_nothing() {
    let value = Value::from_display(&Shown);
    assert_eq!(value.as_u64(), None);
    assert_eq!(value.as_i64(), None);
    assert_eq!(value.as_f64_bits(), None);
    assert_eq!(value.as_bool(), None);
    assert_eq!(value.as_char(), None);
    assert_eq!(value.as_str(), None);
    assert_eq!(value.to_str(), None);
}

#[test]
fn deferred_value_projects_as_what_it_fills_in() {
    assert_eq!(Value::from_fill(&Number(42)).as_u64(), Some(42));
    assert_eq!(Value::from_fill(&Number(42)).as_i64(), None);
}

#[test]
fn deferred_text_is_owned_not_lent() {
    let text = Text("a string");
    assert_eq!(Value::from_fill(&text).as_str(), None);
    assert_eq!(
        Value::from_fill(&text).to_str(),
        Some("a string".to_owned())
    );
}

#[test]
fn failed_fill_projects_to_nothing() {
    assert_eq!(Value::from_fill(&Refusing).as_u64(), None);
    assert_eq!(Value::from_fill(&Refusing).to_str(), None);
}

#[test]
fn coerce_keeps_the_last_value_it_was_handed() {
    let mut coerce = Coerce::new();
    assert!(matches!(coerce.state, Coerced::Primitive(Primitive::Absent)));
    coerce.u64(1).unwrap();
    coerce.bool(true).unwrap();
    assert!(matches!(coerce.state, Coerced::Primitive(Primitive::Bool(true))));
    coerce.debug(kv_value::Text::Debug(&1)).unwrap();
    assert!(matches!(coerce.state, Coerced::Primitive(Primitive::Bool(true))));
    coerce.str("a string").unwrap();
    assert!(matches!(&coerce.state, Coerced::String(s) if s == "a string"));
    coerce.none().unwrap();
    assert!(matches!(coerce.state, Coerced::Primitive(Primitive::Absent)));
}

#[test]
fn coerced_text_becomes_an_absent_primitive() {
    let coerced = Coerced::String("a string".to_owned());
    assert!(matches!(coerced.into_primitive(), Primitive::Absent));
    let coerced = Coerced::Primitive(Primitive::Char('a'));
    assert!(matches!(coerced.into_primitive(), Primitive::Char('a')));
}

#[test]
fn coerced_string_is_handed_out_whether_owned_or_borrowed() {
    assert_eq!(
        Coerced::String("owned".to_owned()).into_string(),
        Some("owned".to_owned())
    );
    assert_eq!(
        Coerced::Primitive(Primitive::Str("borrowed")).into_string(),
        Some("borrowed".to_owned())
    );
    assert_eq!(Coerced::Primitive(Primitive::Unsigned(1)).into_string(), None);
}

#[test]
fn primitive_projections() {
    assert_eq!(Primitive::Unsigned(42).into_u64(), Some(42));
    assert_eq!(Primitive::Signed(-1).into_i64(), Some(-1));
    assert_eq!(Primitive::Float(7).into_f64_bits(), Some(7));
    assert_eq!(Primitive::Bool(true).into_bool(), Some(true));
    assert_eq!(Primitive::Char('c').into_char(), Some('c'));
    assert_eq!(Primitive::Str("s").into_str(), Some("s"));
    assert_eq!(Primitive::Signed(42).into_u64(), None);
    assert_eq!(Primitive::Unsigned(42).into_i64(), None);
    assert_eq!(Primitive::Unsigned(42).into_f64_bits(), None);
    assert_eq!(Primitive::Absent.into_bool(), None);
    assert_eq!(Primitive::Str("c").into_char(), None);
    assert_eq!(Primitive::Char('s').into_str(), None);
}

#[test]
fn failed_fill_coerces_to_the_neutral_state() {
    let r = coerce_filled(Err(VisitError::msg("nothing to give")), Slot::new());
    assert!(matches!(r, Coerced::Primitive(Primitive::Absent)));
}

#[test]
fn filled_slot_coerces_to_what_it_holds() {
    let mut slot = Slot::new();
    let filled = slot.fill(Value::from(42u64));
    assert!(matches!(
        coerce_filled(filled, slot),
        Coerced::Primitive(Primitive::Unsigned(42))
    ));

    let mut slot = Slot::new();
    let filled = slot.fill(Value::from("a string"));
    assert!(matches!(coerce_filled(filled, slot), Coerced::String(s) if s == "a string"));
}
