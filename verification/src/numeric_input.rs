use vstd::prelude::*;
use vstd::string::*;

verus! {

/// What the user did to a numeric input.
#[derive(Debug, PartialEq, Eq)]
pub enum Event {
    /// The text of the input was edited.
    InputChanged(String),
    /// The button that adds one was pressed.
    IncrementPressed,
    /// The button that takes one away was pressed.
    DecrementPressed,
}

/// Mathematical value of an [`Event`].
pub enum EventView {
    InputChanged(Seq<char>),
    IncrementPressed,
    DecrementPressed,
}

impl View for Event {
    type V = EventView;

    open spec fn view(&self) -> EventView {
        match *self {
            Event::InputChanged(text) => EventView::InputChanged(text@),
            Event::IncrementPressed => EventView::IncrementPressed,
            Event::DecrementPressed => EventView::DecrementPressed,
        }
    }
}

impl Clone for Event {
    fn clone(&self) -> (copy: Self)
        ensures
            copy@ == self@,
    {
        match self {
            Event::InputChanged(text) => Event::InputChanged(text.clone()),
            Event::IncrementPressed => Event::IncrementPressed,
            Event::DecrementPressed => Event::DecrementPressed,
        }
    }
}

/// Whether `c` is one of the ten decimal digits.
pub open spec fn is_digit(c: char) -> bool {
    '0' <= c <= '9'
}

/// The number that a sequence of decimal digits spells; 0 for none.
pub open spec fn decimal(digits: Seq<char>) -> nat
    decreases digits.len(),
{
    if digits.len() == 0 {
        0
    } else {
        (decimal(digits.drop_last()) * 10 + (digits.last() as nat - '0' as nat)) as nat
    }
}

/// The digits of a number text: the text without its plus sign, if it has
/// one.
pub open spec fn unsigned(text: Seq<char>) -> Seq<char> {
    if text.len() > 0 && text[0] == '+' {
        text.drop_first()
    } else {
        text
    }
}

/// The number that `text` spells: an optional plus sign and then one or more
/// decimal digits, whose value fits 32 bits. Any other text spells none.
pub open spec fn parsed(text: Seq<char>) -> Option<u32> {
    let digits = unsigned(text);
    if digits.len() > 0 && (forall|i: int| 0 <= i < digits.len() ==> is_digit(#[trigger] digits[i]))
        && decimal(digits) <= u32::MAX {
        Some(decimal(digits) as u32)
    } else {
        None
    }
}

/// A longer sequence of digits spells no smaller a number than its
/// beginning.
pub proof fn decimal_grows(digits: Seq<char>, length: int)
    requires
        0 <= length <= digits.len(),
        forall|i: int| 0 <= i < digits.len() ==> is_digit(#[trigger] digits[i]),
    ensures
        decimal(digits.subrange(0, length)) <= decimal(digits),
    decreases digits.len(),
{
    if length == digits.len() {
        assert(digits.subrange(0, length) =~= digits);
    } else {
        let shorter = digits.drop_last();
        assert(shorter.subrange(0, length) =~= digits.subrange(0, length));
        decimal_grows(shorter, length);
    }
}

/// Reads a number as [`parsed`] defines it.
pub fn parse_number(text: &str) -> (number: Option<u32>)
    ensures
        number == parsed(text@),
{
    if !text.is_ascii() {
        proof {
            let at = choose|i: int| 0 <= i < text@.len() && !('\0' <= #[trigger] text@[i] <= '\u{7f}');
            let digits = unsigned(text@);
            if at == 0 {
                assert(digits == text@);
                assert(!is_digit(digits[0]));
            } else {
                let inner = if digits.len() == text@.len() {
                    at
                } else {
                    at - 1
                };
                assert(!is_digit(digits[inner]));
            }
        }
        return None;
    }
    let length = text.unicode_len();
    let start: usize = if length > 0 && text.get_ascii(0) == 43u8 {
        1
    } else {
        0
    };
    let ghost digits = unsigned(text@);
    assert(digits =~= text@.subrange(start as int, length as int));
    if start == length {
        return None;
    }
    let mut value: u64 = 0;
    let mut index: usize = start;
    while index < length
        invariant
            text.is_ascii(),
            length == text@.len(),
            start <= index <= length,
            digits == text@.subrange(start as int, length as int),
            digits == unsigned(text@),
            forall|i: int| 0 <= i < index - start ==> is_digit(#[trigger] digits[i]),
            value == decimal(digits.subrange(0, index - start)),
            value <= u32::MAX,
        decreases length - index,
    {
        let byte = text.get_ascii(index);
        assert(byte == digits[index - start] as u8);
        if byte < 48u8 || byte > 57u8 {
            assert(!is_digit(digits[index - start]));
            return None;
        }
        assert(is_digit(digits[index - start]));
        let digit: u64 = (byte - 48u8) as u64;
        let ghost longer = digits.subrange(0, index - start + 1);
        assert(longer.drop_last() =~= digits.subrange(0, index - start));
        assert(longer.last() == digits[index - start]);
        assert(decimal(longer) == value * 10 + digit);
        let next = value * 10 + digit;
        if next > 0xffff_ffffu64 {
            proof {
                if forall|i: int| 0 <= i < digits.len() ==> is_digit(#[trigger] digits[i]) {
                    decimal_grows(digits, index - start + 1);
                }
            }
            return None;
        }
        value = next;
        index = index + 1;
    }
    assert(digits.subrange(0, index - start) =~= digits);
    Some(value as u32)
}

/// What a numeric input hands to its listener on `event`, if anything: one
/// more or one less than the value, an empty value counting as 0 and the
/// ends of the range holding; for an edited text, the number it spells, no
/// value for an empty text, and nothing at all for any other text.
pub open spec fn changed(value: Option<u32>, event: EventView) -> Option<Option<u32>> {
    let current: u32 = match value {
        Some(number) => number,
        None => 0,
    };
    match event {
        EventView::IncrementPressed => Some(
            Some(
                if current < u32::MAX {
                    (current + 1) as u32
                } else {
                    current
                },
            ),
        ),
        EventView::DecrementPressed => Some(
            Some(
                if current > 0 {
                    (current - 1) as u32
                } else {
                    current
                },
            ),
        ),
        EventView::InputChanged(text) => if text.len() == 0 {
            Some(None)
        } else {
            match parsed(text) {
                Some(number) => Some(Some(number)),
                None => None,
            }
        },
    }
}

/// Computes what a numeric input with `value` hands on for `event`.
pub fn next_value(value: Option<u32>, event: &Event) -> (next: Option<Option<u32>>)
    ensures
        next == changed(value, event@),
{
    match event {
        Event::IncrementPressed => Some(Some(value.unwrap_or_default().saturating_add(1))),
        Event::DecrementPressed => Some(Some(value.unwrap_or_default().saturating_sub(1))),
        Event::InputChanged(text) => {
            if text.as_str().unicode_len() == 0 {
                Some(None)
            } else {
                match parse_number(text.as_str()) {
                    Some(number) => Some(Some(number)),
                    None => None,
                }
            }
        },
    }
}

/// An input for an optional number, with a button to either side that
/// counts down or up. Every change is handed to `on_change`, which makes
/// the message for the owner of the input.
pub struct NumericInput<F> {
    value: Option<u32>,
    on_change: F,
}

impl<F> NumericInput<F> {
    /// The value that the input shows.
    pub closed spec fn shown(&self) -> Option<u32> {
        self.value
    }

    /// The listener of the input.
    pub closed spec fn listener(&self) -> F {
        self.on_change
    }

    /// An input that shows `value` and reports to `on_change`.
    pub fn new<Message>(value: Option<u32>, on_change: F) -> (input: Self) where
        F: Fn(Option<u32>) -> Message,

        ensures
            input.shown() == value,
            input.listener() == on_change,
    {
        Self { value, on_change }
    }

    /// The value that the input shows.
    pub fn value(&self) -> (value: Option<u32>)
        ensures
            value == self.shown(),
    {
        self.value
    }

    /// Reacts to `event`: where it changes the value, the listener is called
    /// with the new one and its message is handed back.
    pub fn update<Message>(&mut self, event: Event) -> (message: Option<Message>) where
        F: Fn(Option<u32>) -> Message,

        requires
            changed(old(self).shown(), event@) matches Some(next) ==> call_requires(
                old(self).listener(),
                (next,),
            ),
        ensures
            *final(self) == *old(self),
            match changed(old(self).shown(), event@) {
                Some(next) => message matches Some(made) && call_ensures(
                    old(self).listener(),
                    (next,),
                    made,
                ),
                None => message is None,
            },
    {
        match next_value(self.value, &event) {
            Some(next) => Some((self.on_change)(next)),
            None => None,
        }
    }
}

} // verus!
