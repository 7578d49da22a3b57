use vstd::prelude::*;

use crate::error::DeskError;

verus! {

/// The reply to a request: a message, or a height in tenths of a centimetre.
#[derive(Debug)]
pub enum ResponsePayload {
    Message(String),
    Height(i32),
}

/// A reply, as mathematical values.
pub ghost enum PayloadModel {
    Message(Seq<char>),
    Height(int),
}

impl View for ResponsePayload {
    type V = PayloadModel;

    open spec fn view(&self) -> PayloadModel {
        match self {
            ResponsePayload::Message(s) => PayloadModel::Message(s@),
            ResponsePayload::Height(h) => PayloadModel::Height(*h as int),
        }
    }
}

/// The character of a decimal digit.
pub open spec fn digit_char(d: int) -> char {
    seq!['0', '1', '2', '3', '4', '5', '6', '7', '8', '9'][d]
}

/// The decimal digits of a natural number, without leading zeros.
pub open spec fn nat_text(n: nat) -> Seq<char>
    decreases n,
{
    if n < 10 {
        seq![digit_char(n as int)]
    } else {
        nat_text(n / 10) + seq![digit_char((n % 10) as int)]
    }
}

/// The decimal text of an integer, with a leading '-' when it is negative.
pub open spec fn int_text(v: int) -> Seq<char> {
    if v < 0 {
        seq!['-'] + nat_text((-v) as nat)
    } else {
        nat_text(v as nat)
    }
}

/// The message that tells of an error.
pub open spec fn error_text(e: DeskError) -> Seq<char> {
    match e {
        DeskError::TransportFailure => "serial line failure"@,
        DeskError::HeightEmpty => "height is empty"@,
        DeskError::DisplayEmpty => "Display empty"@,
    }
}

/// Relies on `ToString::to_string` for `i32`, which writes its `Display`
/// form: the decimal digits, after a '-' for a negative value.
#[verifier::external_body]
fn decimal_text(v: i32) -> (r: String)
    ensures
        r@ == int_text(v as int),
{
    v.to_string()
}

impl DeskError {
    /// The message that tells of this error.
    pub fn message(&self) -> (r: String)
        ensures
            r@ == error_text(*self),
    {
        match self {
            DeskError::TransportFailure => {
                proof {
                    reveal_strlit("serial line failure");
                }
                "serial line failure".to_owned()
            },
            DeskError::HeightEmpty => {
                proof {
                    reveal_strlit("height is empty");
                }
                "height is empty".to_owned()
            },
            DeskError::DisplayEmpty => {
                proof {
                    reveal_strlit("Display empty");
                }
                "Display empty".to_owned()
            },
        }
    }
}

impl ResponsePayload {
    /// A reply that carries a message.
    pub fn from_message(s: &str) -> (r: ResponsePayload)
        ensures
            r@ == PayloadModel::Message(s@),
    {
        ResponsePayload::Message(s.to_owned())
    }

    /// A reply that tells of an error.
    pub fn from_error(e: DeskError) -> (r: ResponsePayload)
        ensures
            r@ == PayloadModel::Message(error_text(e)),
    {
        ResponsePayload::Message(e.message())
    }

    /// The text of the reply: the message itself, or the height in decimal.
    pub fn to_text(&self) -> (r: String)
        ensures
            r@ == match self@ {
                PayloadModel::Message(s) => s,
                PayloadModel::Height(h) => int_text(h),
            },
    {
        match self {
            ResponsePayload::Message(s) => s.clone(),
            ResponsePayload::Height(h) => decimal_text(*h),
        }
    }
}

impl From<i32> for ResponsePayload {
    /// A reply that carries a height.
    fn from(h: i32) -> (r: ResponsePayload) {
        ResponsePayload::Height(h)
    }
}

impl vstd::std_specs::convert::FromSpecImpl<i32> for ResponsePayload {
    open spec fn obeys_from_spec() -> bool {
        true
    }

    open spec fn from_spec(h: i32) -> ResponsePayload {
        ResponsePayload::Height(h)
    }
}

} // verus!
