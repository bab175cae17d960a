use kv_value::{
    dispatch_filled, Call, Fill, Primitive, Settled, Slot, SvalRef, Text, Token, Value, VisitError,
    Visitor,
};
use std::fmt;

/// Counts the calls of each method, and fails every call after `fail_after`.
#[derive(Default)]
struct Counting {
    debug: usize,
    display: usize,
    unsigned: usize,
    signed: usize,
    float: usize,
    boolean: usize,
    character: usize,
    string: usize,
    absent: usize,
    structured: usize,
    failing: bool,
}

impl Counting {
    fn total(&self) -> usize {
        self.debug
            + self.unsigned
            + self.signed
            + self.float
            + self.boolean
            + self.character
            + self.string
            + self.absent
            + self.structured
    }

    fn outcome(&self) -> Result<(), VisitError> {
        if self.failing {
            Err(VisitError::msg("refused"))
        } else {
            Ok(())
        }
    }
}

impl Visitor for Counting {
    fn step(_: Self, _: Call<'_>, _: Self, _: Result<(), VisitError>) -> bool {
        true
    }

    fn debug(&mut self, v: Text<'_>) -> Result<(), VisitError> {
        self.debug += 1;
        if let Text::Display(_) = v {
            self.display += 1;
        }
        self.outcome()
    }

    fn u64(&mut self, _: u64) -> Result<(), VisitError> {
        self.unsigned += 1;
        self.outcome()
    }

    fn i64(&mut self, _: i64) -> Result<(), VisitError> {
        self.signed += 1;
        self.outcome()
    }

    fn float(&mut self, _: u64) -> Result<(), VisitError> {
        self.float += 1;
        self.outcome()
    }

    fn bool(&mut self, _: bool) -> Result<(), VisitError> {
        self.boolean += 1;
        self.outcome()
    }

    fn char(&mut self, _: char) -> Result<(), VisitError> {
        self.character += 1;
        self.outcome()
    }

    fn str(&mut self, _: &str) -> Result<(), VisitError> {
        self.string += 1;
        self.outcome()
    }

    fn none(&mut self) -> Result<(), VisitError> {
        self.absent += 1;
        self.outcome()
    }

    fn sval(&mut self, _: SvalRef<'_>) -> Result<(), VisitError> {
        self.structured += 1;
        self.outcome()
    }
}

struct Deferred(u64);

impl Fill for Deferred {
    fn fill<'v>(&'v self, slot: &mut Slot<'v>) -> Result<(), VisitError> {
        slot.fill(Value::from(self.0))
    }
}

struct Twice(Deferred);

impl Fill for Twice {
    fn fill<'v>(&'v self, slot: &mut Slot<'v>) -> Result<(), VisitError> {
        slot.fill(Value::from_fill(&self.0))
    }
}

struct Refusing;

impl Fill for Refusing {
    fn fill<'v>(&'v self, _: &mut Slot<'v>) -> Result<(), VisitError> {
        Err(VisitError::msg("nothing to give"))
    }
}

struct Shown;

impl fmt::Display for Shown {
    fn fmt(&self, f: &mut fmt::Formatter) -> fmt::Result {
        f.write_str("shown")
    }
}

fn counted(value: Value<'_>) -> Counting {
    let mut counting = Counting::default();
    value.visit(&mut counting).unwrap();
    counting
}

#[test]
fn unsigned_makes_one_unsigned_call() {
    let counting = counted(Value::from(42u64));
    assert_eq!((counting.unsigned, counting.total()), (1, 1));
}

#[test]
fn signed_makes_one_signed_call() {
    let counting = counted(Value::from(-42i64));
    assert_eq!((counting.signed, counting.total()), (1, 1));
}

#[test]
fn float_makes_one_float_call() {
    let counting = counted(Value::from_f64_bits(1.5f64.to_bits()));
    assert_eq!((counting.float, counting.total()), (1, 1));
}

#[test]
fn bool_makes_one_bool_call() {
    let counting = counted(Value::from(true));
    assert_eq!((counting.boolean, counting.total()), (1, 1));
}

#[test]
fn char_makes_one_char_call() {
    let counting = counted(Value::from('a'));
    assert_eq!((counting.character, counting.total()), (1, 1));
}

#[test]
fn str_makes_one_str_call() {
    let counting = counted(Value::from("a string"));
    assert_eq!((counting.string, counting.total()), (1, 1));
}

#[test]
fn absence_makes_one_none_call() {
    let counting = counted(Value::absent());
    assert_eq!((counting.absent, counting.total()), (1, 1));
}

#[test]
fn debug_makes_one_debug_call() {
    let counting = counted(Value::from_debug(&42u64));
    assert_eq!((counting.debug, counting.display, counting.total()), (1, 0, 1));
}

#[test]
fn display_reaches_debug_once_as_display_text() {
    let counting = counted(Value::from_display(&Shown));
    assert_eq!((counting.debug, counting.display, counting.total()), (1, 1, 1));
}

#[test]
fn structured_makes_one_sval_call() {
    let counting = counted(Value::from_sval(&42u64));
    assert_eq!((counting.structured, counting.total()), (1, 1));
}

#[test]
fn deferred_makes_the_one_call_of_what_it_fills_in() {
    let deferred = Deferred(42);
    let counting = counted(Value::from_fill(&deferred));
    assert_eq!((counting.unsigned, counting.total()), (1, 1));
}

#[test]
fn deferred_twice_over_still_makes_one_call() {
    let twice = Twice(Deferred(42));
    let counting = counted(Value::from_fill(&twice));
    assert_eq!((counting.unsigned, counting.total()), (1, 1));
}

#[test]
fn failed_fill_makes_no_call_and_is_returned() {
    let mut counting = Counting::default();
    let r = Value::from_fill(&Refusing).visit(&mut counting);
    assert_eq!(r.unwrap_err().as_msg(), Some("nothing to give"));
    assert_eq!(counting.total(), 0);
}

#[test]
fn failure_of_the_consumer_is_returned_as_it_is() {
    let mut counting = Counting {
        failing: true,
        ..Counting::default()
    };
    let r = Value::from(42u64).visit(&mut counting);
    assert_eq!(r.unwrap_err().as_msg(), Some("refused"));
    assert_eq!(counting.total(), 1);
}

#[test]
fn tokens_record_the_one_call() {
    assert_eq!(Value::from(42u64).to_tokens(), vec![Token::Unsigned(42)]);
    assert_eq!(Value::from(-42i64).to_tokens(), vec![Token::Signed(-42)]);
    assert_eq!(Value::from(true).to_tokens(), vec![Token::Bool(true)]);
    assert_eq!(Value::from('a').to_tokens(), vec![Token::Char('a')]);
    assert_eq!(
        Value::from("a string").to_tokens(),
        vec![Token::Str("a string".to_owned())]
    );
    assert_eq!(Value::absent().to_tokens(), vec![Token::Absent]);
    assert_eq!(
        Value::from_f64_bits(1.5f64.to_bits()).to_tokens(),
        vec![Token::Float(0x3ff8_0000_0000_0000)]
    );
}

#[test]
fn token_of_a_rendered_value_is_its_text() {
    assert_eq!(
        Value::from_debug(&"a string").to_token(),
        Some(Token::Str("\"a string\"".to_owned()))
    );
    assert_eq!(
        Value::from_display(&"a string").to_token(),
        Some(Token::Str("a string".to_owned()))
    );
}

#[test]
fn token_of_a_deferred_value_is_that_of_what_it_fills_in() {
    assert_eq!(
        Value::from_fill(&Deferred(7)).to_token(),
        Some(Token::Unsigned(7))
    );
    assert_eq!(Value::from_fill(&Refusing).to_token(), None);
    assert_eq!(Value::from_fill(&Refusing).to_tokens(), vec![]);
}

#[test]
fn settled_is_the_value_unless_deferred() {
    assert!(Value::from(1u64).settled().is_some());
    assert!(Value::from_debug(&1).settled().is_some());
    assert!(Value::from_fill(&Deferred(1)).settled().is_none());
}

#[test]
fn slot_takes_one_value() {
    let mut slot = Slot::new();
    assert!(!slot.is_filled());
    assert!(slot.fill(Value::from(1u64)).is_ok());
    assert!(slot.is_filled());
}

#[test]
fn slot_is_left_empty_by_a_refusing_fill() {
    let mut slot = Slot::new();
    let r = slot.fill(Value::from_fill(&Refusing));
    assert_eq!(r.unwrap_err().as_msg(), Some("nothing to give"));
    assert!(!slot.is_filled());
}

#[test]
fn slot_hands_out_what_it_took() {
    let mut slot = Slot::new();
    slot.fill(Value::from(7u64)).unwrap();
    assert!(matches!(
        slot.take(),
        Some(Settled::Primitive(Primitive::Unsigned(7)))
    ));
    assert!(Slot::new().take().is_none());
}

#[test]
fn failed_fill_is_dispatched_as_its_own_failure() {
    let mut counting = Counting::default();
    let r = dispatch_filled(
        Err(VisitError::msg("nothing to give")),
        Slot::new(),
        &mut counting,
    );
    assert_eq!(r.unwrap_err().as_msg(), Some("nothing to give"));
    assert_eq!(counting.total(), 0);
}

#[test]
fn filled_slot_is_dispatched_by_one_call() {
    let mut slot = Slot::new();
    let filled = slot.fill(Value::from(true));
    let mut counting = Counting::default();
    assert!(dispatch_filled(filled, slot, &mut counting).is_ok());
    assert_eq!((counting.boolean, counting.total()), (1, 1));
}

#[test]
fn failure_of_the_consumer_after_a_fill_is_returned() {
    let mut slot = Slot::new();
    let filled = slot.fill(Value::from(true));
    let mut counting = Counting {
        failing: true,
        ..Counting::default()
    };
    let r = dispatch_filled(filled, slot, &mut counting);
    assert_eq!(r.unwrap_err().as_msg(), Some("refused"));
    assert_eq!(counting.total(), 1);
}
