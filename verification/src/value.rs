//! Conversion between native wire values and their rich counterparts.

use vstd::prelude::*;
use vstd::string::StringExecFns;
use crate::wire::WasmValue;

verus! {

/// A rich value that stands for a native wire value.
pub trait WasiValue: Sized {
    /// The native wire type.
    type NativeType: WasmValue;

    /// Whether the value holds only what the wire can carry. A flag set is
    /// valid when no bit without a meaning is set.
    spec fn valid(self) -> bool;

    /// The rich value that `native` stands for, if it stands for one.
    spec fn lift(native: Self::NativeType) -> Option<Self>;

    /// The native value that stands for this value.
    spec fn lower(self) -> Self::NativeType;

    /// The message of the error for a native value that stands for no rich
    /// value: it names the value, or the first part of it, that does not
    /// convert.
    spec fn failure(native: Self::NativeType) -> Seq<char>;

    /// A lifted value is valid, and lowers to the native value it came from.
    proof fn lemma_lift_valid(native: Self::NativeType)
        ensures
            match Self::lift(native) {
                Some(value) => value.valid() && value.lower() == native,
                None => true,
            },
    ;

    /// The native value of a rich value has an encoding.
    proof fn lemma_lower_writable(self)
        ensures
            self.lower().writable(),
    ;

    /// Lowering a rich value and lifting the result gives the value back.
    proof fn lemma_lower_then_lift(self)
        requires
            self.valid(),
        ensures
            Self::lift(self.lower()) == Some(self),
    ;

    /// Converts a native value to its rich counterpart. Fails exactly when
    /// the native value has none, and then hands the native value back.
    fn from_native(native: Self::NativeType) -> (result: Result<Self, WasiValueError<Self>>)
        ensures
            match result {
                Ok(value) => Self::lift(native) == Some(value),
                Err(error) => {
                    &&& Self::lift(native).is_none()
                    &&& error.0 == native
                    &&& error.1@ == Self::failure(native)
                },
            },
    ;

    /// Converts a rich value to its native counterpart.
    fn to_native(self) -> (native: Self::NativeType)
        ensures
            native == self.lower(),
            native.writable(),
    ;
}

/// A valid rich value that is stored into guest memory and read back is the
/// same value.
pub proof fn lemma_rich_round_trip<V: WasiValue>(value: V, window: Seq<u8>)
    requires
        value.valid(),
        window.len() == V::NativeType::SIZE,
    ensures
        V::lift(V::NativeType::decode(value.lower().store(window))) == Some(value),
{
    value.lemma_lower_writable();
    value.lower().lemma_store_then_decode(window);
    value.lemma_lower_then_lift();
}

/// A rich value without parts: its conversion error names the value itself.
pub trait WasiLeafValue: WasiValue {
    /// The message that reports `native` as not convertible.
    fn get_error_message(native: Self::NativeType) -> (message: String)
        ensures
            message@ == Self::failure(native),
    ;
}

/// The message of the error for a union whose tag is not recognized.
pub const UNKNOWN_UNION: &'static str = "Cannot convert unknown union value.";

/// A native value that has no rich counterpart, with a message saying so.
pub struct WasiValueError<T: WasiValue>(pub T::NativeType, pub String);

impl<T: WasiValue> WasiValueError<T> {
    /// The native value that failed to convert.
    pub open spec fn native(self) -> T::NativeType {
        self.0
    }

    /// The error for a native value whose member `inner` failed to convert.
    pub fn from_inner<U: WasiValue>(native: T::NativeType, inner: WasiValueError<U>) -> (error:
        Self)
        ensures
            error.native() == native,
            error.1 == inner.1,
    {
        WasiValueError(native, inner.1)
    }

    /// The error for a union value whose tag was not recognized.
    pub fn from_unknown(native: T::NativeType) -> (error: Self)
        ensures
            error.native() == native,
            error.1@ == UNKNOWN_UNION@,
    {
        WasiValueError(native, UNKNOWN_UNION.to_string())
    }

    /// Returns the value that failed to convert.
    pub fn as_native(self) -> (native: T::NativeType)
        ensures
            native == self.native(),
    {
        self.0
    }

    /// The message that describes the failure.
    pub fn message(&self) -> (message: &String)
        ensures
            *message == self.1,
    {
        &self.1
    }
}

impl<T: WasiLeafValue> WasiValueError<T> {
    /// The error for a native value that stands for no rich value.
    pub fn from_native(native: T::NativeType) -> (error: Self)
        ensures
            error.native() == native,
            error.1@ == T::failure(native),
    {
        WasiValueError(native, T::get_error_message(native))
    }
}

/// The character of the decimal digit `d`.
pub open spec fn digit(d: nat) -> char
    recommends
        d < 10,
{
    if d == 0 {
        '0'
    } else if d == 1 {
        '1'
    } else if d == 2 {
        '2'
    } else if d == 3 {
        '3'
    } else if d == 4 {
        '4'
    } else if d == 5 {
        '5'
    } else if d == 6 {
        '6'
    } else if d == 7 {
        '7'
    } else if d == 8 {
        '8'
    } else {
        '9'
    }
}

/// The decimal digits of a number, the most significant first and without
/// leading zeros.
pub open spec fn decimal(n: nat) -> Seq<char>
    decreases n,
{
    if n < 10 {
        seq![digit(n)]
    } else {
        decimal(n / 10).push(digit(n % 10))
    }
}

/// A whole number as text: its decimal digits, after a minus sign where it
/// is negative.
pub open spec fn number_text(n: int) -> Seq<char> {
    if n < 0 {
        seq!['-'] + decimal((-n) as nat)
    } else {
        decimal(n as nat)
    }
}

/// The message for a native value, written as `number`, that does not
/// convert to the type called `name`.
pub open spec fn message_text(number: Seq<char>, name: Seq<char>) -> Seq<char> {
    "Could not convert the native value "@ + number + " to "@ + name + "."@
}

/// The message for an unsigned native value that does not convert to the
/// type called `name`.
pub open spec fn conversion_text(native: u64, name: Seq<char>) -> Seq<char> {
    message_text(number_text(native as int), name)
}

/// The message for a signed native value that does not convert to the type
/// called `name`.
pub open spec fn signed_conversion_text(native: i64, name: Seq<char>) -> Seq<char> {
    message_text(number_text(native as int), name)
}

/// One decimal digit as text.
fn digit_text(d: u64) -> (text: &'static str)
    requires
        d < 10,
    ensures
        text@ == seq![digit(d as nat)],
{
    proof {
        reveal_strlit("0");
        reveal_strlit("1");
        reveal_strlit("2");
        reveal_strlit("3");
        reveal_strlit("4");
        reveal_strlit("5");
        reveal_strlit("6");
        reveal_strlit("7");
        reveal_strlit("8");
        reveal_strlit("9");
    }
    let text = if d == 0 {
        "0"
    } else if d == 1 {
        "1"
    } else if d == 2 {
        "2"
    } else if d == 3 {
        "3"
    } else if d == 4 {
        "4"
    } else if d == 5 {
        "5"
    } else if d == 6 {
        "6"
    } else if d == 7 {
        "7"
    } else if d == 8 {
        "8"
    } else {
        "9"
    };
    assert(text@ =~= seq![digit(d as nat)]);
    text
}

/// Writes a number in decimal digits.
pub fn decimal_text(n: u64) -> (text: String)
    ensures
        text@ == decimal(n as nat),
    decreases n,
{
    if n < 10 {
        String::from_str(digit_text(n))
    } else {
        let mut text = decimal_text(n / 10);
        text.append(digit_text(n % 10));
        assert(text@ =~= decimal(n as nat / 10).push(digit(n as nat % 10)));
        text
    }
}

/// Writes the message around a number that is already text.
fn message_around(number: &str, name: &str) -> (message: String)
    ensures
        message@ == message_text(number@, name@),
{
    let mut message = String::from_str("Could not convert the native value ");
    message.append(number);
    message.append(" to ");
    message.append(name);
    message.append(".");
    message
}

/// Writes the message for an unsigned native value that does not convert
/// to the type called `name`.
pub(crate) fn conversion_message(native: u64, name: &str) -> (message: String)
    ensures
        message@ == conversion_text(native, name@),
{
    let number = decimal_text(native);
    message_around(number.as_str(), name)
}

/// Writes the message for a signed native value that does not convert to
/// the type called `name`.
pub(crate) fn signed_conversion_message(native: i64, name: &str) -> (message: String)
    ensures
        message@ == signed_conversion_text(native, name@),
{
    if native < 0 {
        let magnitude: u64 = (-(native + 1)) as u64 + 1;
        let digits = decimal_text(magnitude);
        let mut number = String::from_str("-");
        number.append(digits.as_str());
        proof {
            reveal_strlit("-");
            assert("-"@ =~= seq!['-']);
        }
        message_around(number.as_str(), name)
    } else {
        let number = decimal_text(native as u64);
        message_around(number.as_str(), name)
    }
}

} // verus!
