//! One round trip with the player, seen from this side of the byte stream:
//! what was read, what a JSON parser made of it, and the response or the
//! failure that follows from both.
//!
//! The owner of the stream writes the request line, reads one line and
//! parses it as JSON. Which JSON is a response, and which value a member
//! stands for, is decided here.

use crate::domain::{Command, Error, Fault, PropertyValue, Response};
use crate::framing::{ends_line, is_full_line};
use vstd::prelude::*;

verus! {

/// A member of a JSON object, as a JSON parser classifies it.
#[derive(Debug, PartialEq)]
pub enum Token {
    /// The object has no member of that name.
    Absent,
    /// The literal `null`.
    Null,
    /// One of the literals `true` and `false`.
    Flag(bool),
    /// A number. `integer` is its value where it is written without a
    /// fraction or an exponent and lies in the 64-bit signed range;
    /// `single` is the IEEE 754 bit pattern of the single-precision number
    /// nearest to it.
    Number { integer: Option<i64>, single: u32 },
    /// A string, unescaped.
    Text(String),
    /// An array or an object.
    Compound,
}

/// The members of a reply that a response is made of.
#[derive(Debug, PartialEq)]
pub struct Envelope {
    pub data: Token,
    pub request_id: Token,
    pub error: Token,
}

/// What came of sending one request line and waiting for one reply line, as
/// the owner of the byte stream reports it.
#[derive(Debug, PartialEq)]
pub enum Exchange {
    /// The request line could not be written in full.
    WriteFailed,
    /// The request was written, but reading failed before any text arrived.
    ReadFailed,
    /// The request was written and `line` was read: the text up to and
    /// including the first newline, or up to the end of the stream where it
    /// ended first. `envelope` holds the members of the JSON object that
    /// `line` is, or `None` where it is no JSON object.
    Received { line: String, envelope: Option<Envelope> },
}

impl Token {
    /// Whether the token is a number written as an integer that a 32-bit
    /// signed integer can hold.
    pub open spec fn is_small_integer(self) -> bool {
        self matches Token::Number { integer: Some(number), .. } && i32::MIN <= number <= i32::MAX
    }

    /// Whether the token can serve as a request id: a number written as an
    /// integer from 0 to 255.
    pub open spec fn is_request_id(self) -> bool {
        self matches Token::Number { integer: Some(number), .. } && 0 <= number <= u8::MAX
    }

    /// The value that the token stands for. A number is an integer where
    /// it is written as one and fits, and a float otherwise; a boolean and
    /// a string stand for themselves; nothing else is a value.
    pub open spec fn value(self) -> Option<PropertyValue> {
        match self {
            Token::Flag(flag) => Some(PropertyValue::Bool(flag)),
            Token::Number { integer, single } => if self.is_small_integer() {
                Some(PropertyValue::Integer(integer->0 as i32))
            } else {
                Some(PropertyValue::Float(single))
            },
            Token::Text(text) => Some(PropertyValue::String(text)),
            _ => None,
        }
    }
}

impl PropertyValue {
    /// Decodes a scalar token into the variant that matches its shape.
    /// Gives `None` for a token that is no scalar.
    pub fn decode(token: Token) -> (value: Option<PropertyValue>)
        ensures
            value == token.value(),
    {
        match token {
            Token::Flag(flag) => Some(PropertyValue::Bool(flag)),
            Token::Number { integer, single } => match integer {
                Some(number) => if -0x8000_0000 <= number && number <= 0x7fff_ffff {
                    Some(PropertyValue::Integer(number as i32))
                } else {
                    Some(PropertyValue::Float(single))
                },
                None => Some(PropertyValue::Float(single)),
            },
            Token::Text(text) => Some(PropertyValue::String(text)),
            _ => None,
        }
    }
}

impl Envelope {
    /// Whether the members make up a response: the request id is a small
    /// integer, the error is a string, and the data, where there is any, is
    /// a scalar.
    pub open spec fn is_response(self) -> bool {
        &&& self.request_id.is_request_id()
        &&& self.error is Text
        &&& !(self.data is Compound)
    }

    /// The response that the members make up.
    pub open spec fn response(self) -> Option<Response> {
        if self.is_response() {
            Some(
                Response {
                    data: self.data.value(),
                    request_id: self.request_id->integer->0 as u8,
                    error: self.error->Text_0,
                },
            )
        } else {
            None
        }
    }
}

impl Response {
    /// Decodes the members of a reply into a response. The data member may
    /// be missing or `null`, and the response then carries no value. Gives
    /// `None` where the members do not make up a response.
    pub fn decode(envelope: Envelope) -> (response: Option<Response>)
        ensures
            response == envelope.response(),
    {
        let Envelope { data, request_id, error } = envelope;
        let request_id: u8 = match request_id {
            Token::Number { integer: Some(number), .. } => if 0 <= number && number <= 255 {
                number as u8
            } else {
                return None;
            },
            _ => {
                return None;
            },
        };
        let error: String = match error {
            Token::Text(text) => text,
            _ => {
                return None;
            },
        };
        let data: Option<PropertyValue> = match data {
            Token::Compound => {
                return None;
            },
            scalar => PropertyValue::decode(scalar),
        };
        Some(Response { data, request_id, error })
    }
}

impl Exchange {
    /// The response that the exchange delivered, or the way it broke down.
    /// A line that lacks its newline shows that the stream was closed
    /// early, whatever the text read so far amounts to.
    pub open spec fn outcome(self) -> Result<Response, Error> {
        match self {
            Exchange::WriteFailed => Err(Error::Transport(Fault::Write)),
            Exchange::ReadFailed => Err(Error::Transport(Fault::Read)),
            Exchange::Received { line, envelope } => if !is_full_line(line@) {
                Err(Error::Transport(Fault::Closed))
            } else if envelope is Some && envelope->0.is_response() {
                Ok(envelope->0.response()->0)
            } else {
                Err(Error::Decode)
            },
        }
    }
}

impl Command {
    /// Concludes the exchange of this command: gives the response where the
    /// request line went out and a full reply line came back that is a
    /// response, and the failure otherwise. The response is handed on as
    /// it came; its `error` member is not looked at.
    pub fn execute(&self, exchange: Exchange) -> (reply: Result<Response, Error>)
        ensures
            reply == exchange.outcome(),
    {
        match exchange {
            Exchange::WriteFailed => Err(Error::Transport(Fault::Write)),
            Exchange::ReadFailed => Err(Error::Transport(Fault::Read)),
            Exchange::Received { line, envelope } => {
                if !ends_line(line.as_str()) {
                    return Err(Error::Transport(Fault::Closed));
                }
                let decoded: Option<Response> = match envelope {
                    Some(members) => Response::decode(members),
                    None => None,
                };
                match decoded {
                    Some(response) => Ok(response),
                    None => Err(Error::Decode),
                }
            },
        }
    }
}

/// A number token decodes to an integer exactly where it is written as an
/// integer that fits, and to a float otherwise; the integer is the one
/// written, and the float is the single-precision number that the parser
/// gave. A boolean and a string decode to themselves.
pub proof fn lemma_scalars_decode_by_shape(token: Token)
    ensures
        token matches Token::Flag(flag) ==> token.value() == Some(PropertyValue::Bool(flag)),
        token matches Token::Text(text) ==> token.value() == Some(PropertyValue::String(text)),
        token matches Token::Number { integer, single } ==> {
            if integer is Some && i32::MIN <= integer->0 <= i32::MAX {
                token.value() matches Some(PropertyValue::Integer(number)) && number == integer->0
            } else {
                token.value() == Some(PropertyValue::Float(single))
            }
        },
        token.value() is None <==> token is Absent || token is Null || token is Compound,
{
}

/// A decoded integer narrows back to the number that was written, and a
/// decoded boolean or string to the one that was sent.
pub proof fn lemma_decoded_value_narrows_to_what_was_sent(token: Token)
    ensures
        token.is_small_integer() ==> token.value()->0.as_integer() == Ok::<i32, Error>(
            token->integer->0 as i32,
        ),
        token matches Token::Flag(flag) ==> token.value()->0.as_flag() == Ok::<bool, Error>(flag),
        token matches Token::Text(text) ==> token.value()->0.as_text() == Ok::<String, Error>(
            text,
        ),
{
}

/// An exchange in which the stream failed, or ended before the reply line
/// was complete, is reported as a failure of the transport, whatever the
/// text read so far amounts to.
pub proof fn lemma_closed_stream_is_transport_failure(exchange: Exchange)
    requires
        exchange is WriteFailed || exchange is ReadFailed || !is_full_line(exchange->line@),
    ensures
        exchange.outcome() is Err,
        exchange.outcome()->Err_0 is Transport,
{
}

/// An exchange gives a response exactly where a full line was read and its
/// members make up a response; every other exchange fails on the side of
/// the transport or of the decoding.
pub proof fn lemma_outcome_of_exchange(exchange: Exchange)
    ensures
        exchange.outcome() is Ok <==> exchange is Received && is_full_line(exchange->line@)
            && exchange->envelope is Some && exchange->envelope->0.is_response(),
        exchange.outcome() matches Err(error) ==> error is Transport || error is Decode,
{
}

} // verus!
