//! The vocabulary of the player's command protocol: properties, the values
//! they take, commands, responses and the ways an operation can fail.

use crate::binary32::{lemma_truncated_fits, truncate, truncated};
use vstd::prelude::*;

verus! {

/// An addressable piece of player state.
#[derive(Clone, Copy, Debug, PartialEq, Eq, Structural)]
pub enum Property {
    Chapter,
    Volume,
    MediaTitle,
    Pause,
    Chapters,
}

impl Property {
    /// The identifier under which the player knows this property.
    pub open spec fn spec_wire_name(self) -> Seq<char> {
        match self {
            Property::Chapter => "chapter"@,
            Property::Volume => "volume"@,
            Property::MediaTitle => "media-title"@,
            Property::Pause => "pause"@,
            Property::Chapters => "chapters"@,
        }
    }

    /// The identifier under which the player knows this property.
    pub fn wire_name(&self) -> (name: &'static str)
        ensures
            name@ == self.spec_wire_name(),
    {
        match self {
            Property::Chapter => "chapter",
            Property::Volume => "volume",
            Property::MediaTitle => "media-title",
            Property::Pause => "pause",
            Property::Chapters => "chapters",
        }
    }
}

/// One of the four shapes a value can have on the wire. It names the variant
/// that was found, or the type that was asked for, when a narrowing fails.
#[derive(Clone, Copy, Debug, PartialEq, Eq, Structural)]
pub enum Shape {
    Integer,
    Float,
    String,
    Bool,
}

/// The stage at which the byte stream let an exchange down.
#[derive(Clone, Copy, Debug, PartialEq, Eq, Structural)]
pub enum Fault {
    /// The request line could not be written in full.
    Write,
    /// The stream failed before a reply could be read.
    Read,
    /// The stream ended before the reply line was complete.
    Closed,
}

/// Why an operation failed.
#[derive(Clone, Copy, Debug, PartialEq, Eq, Structural)]
pub enum Error {
    /// The byte stream failed or was closed.
    Transport(Fault),
    /// The reply line is not a response envelope.
    Decode,
    /// A value of one shape was asked to narrow to an unrelated type.
    TypeMismatch { observed: Shape, requested: Shape },
    /// The reply to a read of this property carried no value.
    MissingData(Property),
    /// A read that the operation depends on gave nothing to work with.
    PreconditionFailed,
    /// Nothing is left of the media title once it is cleaned.
    EmptyTitle,
}

/// A value as it travels on the wire. A `Float` holds the IEEE 754 bit
/// pattern of a single-precision number.
#[derive(Debug, PartialEq)]
pub enum PropertyValue {
    Integer(i32),
    Float(u32),
    String(String),
    Bool(bool),
}

/// What a [`PropertyValue`] holds, with text as a sequence of characters.
pub enum Scalar {
    Integer(i32),
    Float(u32),
    Text(Seq<char>),
    Flag(bool),
}

impl View for PropertyValue {
    type V = Scalar;

    open spec fn view(&self) -> Scalar {
        match *self {
            PropertyValue::Integer(i) => Scalar::Integer(i),
            PropertyValue::Float(bits) => Scalar::Float(bits),
            PropertyValue::String(s) => Scalar::Text(s@),
            PropertyValue::Bool(b) => Scalar::Flag(b),
        }
    }
}

impl DeepView for PropertyValue {
    type V = Scalar;

    open spec fn deep_view(&self) -> Scalar {
        self.view()
    }
}

impl Clone for PropertyValue {
    fn clone(&self) -> (copy: Self)
        ensures
            copy == *self,
    {
        match self {
            PropertyValue::Integer(i) => PropertyValue::Integer(*i),
            PropertyValue::Float(bits) => PropertyValue::Float(*bits),
            PropertyValue::String(s) => PropertyValue::String(s.clone()),
            PropertyValue::Bool(b) => PropertyValue::Bool(*b),
        }
    }
}

impl PropertyValue {
    /// The variant that is populated.
    pub open spec fn spec_shape(self) -> Shape {
        match self {
            PropertyValue::Integer(_) => Shape::Integer,
            PropertyValue::Float(_) => Shape::Float,
            PropertyValue::String(_) => Shape::String,
            PropertyValue::Bool(_) => Shape::Bool,
        }
    }

    /// The variant that is populated.
    pub fn shape(&self) -> (shape: Shape)
        ensures
            shape == self.spec_shape(),
    {
        match self {
            PropertyValue::Integer(_) => Shape::Integer,
            PropertyValue::Float(_) => Shape::Float,
            PropertyValue::String(_) => Shape::String,
            PropertyValue::Bool(_) => Shape::Bool,
        }
    }

    /// The failure of narrowing this value to `requested`.
    pub open spec fn mismatch(self, requested: Shape) -> Error {
        Error::TypeMismatch { observed: self.spec_shape(), requested }
    }

    /// The value as an integer: an integer is itself, a float loses its
    /// fractional part, text and booleans are no integers.
    pub open spec fn as_integer(self) -> Result<i32, Error> {
        match self {
            PropertyValue::Integer(i) => Ok(i),
            PropertyValue::Float(bits) => Ok(truncated(bits) as i32),
            _ => Err(self.mismatch(Shape::Integer)),
        }
    }

    /// The value as text: only text is text.
    pub open spec fn as_text(self) -> Result<String, Error> {
        match self {
            PropertyValue::String(s) => Ok(s),
            _ => Err(self.mismatch(Shape::String)),
        }
    }

    /// The value as a boolean: only a boolean is one.
    pub open spec fn as_flag(self) -> Result<bool, Error> {
        match self {
            PropertyValue::Bool(b) => Ok(b),
            _ => Err(self.mismatch(Shape::Bool)),
        }
    }
}

/// Narrowing to an integer: the result is [`PropertyValue::as_integer`].
impl TryInto<i32> for PropertyValue {
    type Error = Error;

    fn try_into(self) -> (narrowed: Result<i32, Error>) {
        match self {
            PropertyValue::Integer(i) => Ok(i),
            PropertyValue::Float(bits) => Ok(truncate(bits)),
            other => Err(Error::TypeMismatch { observed: other.shape(), requested: Shape::Integer }),
        }
    }
}

impl vstd::std_specs::convert::TryIntoSpecImpl<i32> for PropertyValue {
    open spec fn obeys_try_into_spec() -> bool {
        true
    }

    open spec fn try_into_spec(self) -> Result<i32, Error> {
        self.as_integer()
    }
}

/// Narrowing to text: the result is [`PropertyValue::as_text`].
impl TryInto<String> for PropertyValue {
    type Error = Error;

    fn try_into(self) -> (narrowed: Result<String, Error>) {
        match self {
            PropertyValue::String(s) => Ok(s),
            other => Err(Error::TypeMismatch { observed: other.shape(), requested: Shape::String }),
        }
    }
}

impl vstd::std_specs::convert::TryIntoSpecImpl<String> for PropertyValue {
    open spec fn obeys_try_into_spec() -> bool {
        true
    }

    open spec fn try_into_spec(self) -> Result<String, Error> {
        self.as_text()
    }
}

/// Narrowing to a boolean: the result is [`PropertyValue::as_flag`].
impl TryInto<bool> for PropertyValue {
    type Error = Error;

    fn try_into(self) -> (narrowed: Result<bool, Error>) {
        match self {
            PropertyValue::Bool(b) => Ok(b),
            other => Err(Error::TypeMismatch { observed: other.shape(), requested: Shape::Bool }),
        }
    }
}

impl vstd::std_specs::convert::TryIntoSpecImpl<bool> for PropertyValue {
    open spec fn obeys_try_into_spec() -> bool {
        true
    }

    open spec fn try_into_spec(self) -> Result<bool, Error> {
        self.as_flag()
    }
}

/// Narrowing a value to the type of its own variant succeeds and gives back
/// what the variant holds: an integer and a boolean unchanged, text as the
/// same string, and a float as the integer that it truncates to.
pub proof fn lemma_narrowing_to_own_type_succeeds(value: PropertyValue)
    ensures
        value matches PropertyValue::Integer(i) ==> value.as_integer() == Ok::<i32, Error>(i),
        value matches PropertyValue::Float(bits) ==> value.as_integer() matches Ok(whole)
            && whole == truncated(bits),
        value matches PropertyValue::String(s) ==> value.as_text() == Ok::<String, Error>(s),
        value matches PropertyValue::Bool(b) ==> value.as_flag() == Ok::<bool, Error>(b),
{
    if let PropertyValue::Float(bits) = value {
        lemma_truncated_fits(bits);
    }
}

/// Narrowing a value to a type that its variant does not convert to fails,
/// and the failure names the variant found and the type asked for. Only
/// integers and floats narrow to an integer, only text to text, only a
/// boolean to a boolean.
pub proof fn lemma_narrowing_to_other_type_fails(value: PropertyValue)
    ensures
        !(value is Integer || value is Float) ==> value.as_integer() == Err::<i32, Error>(
            Error::TypeMismatch { observed: value.spec_shape(), requested: Shape::Integer },
        ),
        !(value is String) ==> value.as_text() == Err::<String, Error>(
            Error::TypeMismatch { observed: value.spec_shape(), requested: Shape::String },
        ),
        !(value is Bool) ==> value.as_flag() == Err::<bool, Error>(
            Error::TypeMismatch { observed: value.spec_shape(), requested: Shape::Bool },
        ),
{
}

/// One request: the read of a property, or the write of a value to it.
#[derive(Debug, PartialEq)]
pub enum Command {
    GetProperty(Property),
    SetProperty(Property, PropertyValue),
}

/// The envelope in which a command travels: an object whose one member,
/// `command`, is the encoded command.
#[derive(Debug, PartialEq)]
pub struct Request {
    pub command: Vec<PropertyValue>,
}

/// The decoded reply to one command.
#[derive(Debug, PartialEq)]
pub struct Response {
    /// The value read; absent on an acknowledgement.
    pub data: Option<PropertyValue>,
    /// The correlation id that the player gave the request.
    pub request_id: u8,
    /// The player's verdict on the request, as it sent it.
    pub error: String,
}

impl Command {
    /// The operation name that opens the encoded command.
    pub open spec fn spec_operation_name(self) -> Seq<char> {
        match self {
            Command::GetProperty(_) => "get_property"@,
            Command::SetProperty(_, _) => "set_property"@,
        }
    }

    /// The property that the command reads or writes.
    pub open spec fn property(self) -> Property {
        match self {
            Command::GetProperty(property) => property,
            Command::SetProperty(property, _) => property,
        }
    }

    /// The wire form of the command: the operation name, the property's
    /// identifier and, for a write, the value, in this order.
    pub open spec fn spec_encode(self) -> Seq<Scalar> {
        match self {
            Command::GetProperty(property) => seq![
                Scalar::Text(self.spec_operation_name()),
                Scalar::Text(property.spec_wire_name()),
            ],
            Command::SetProperty(property, value) => seq![
                Scalar::Text(self.spec_operation_name()),
                Scalar::Text(property.spec_wire_name()),
                value@,
            ],
        }
    }

    /// Encodes the command as the positional sequence that the player
    /// expects.
    pub fn encode(&self) -> (wire: Vec<PropertyValue>)
        ensures
            wire.deep_view() == self.spec_encode(),
    {
        let mut wire: Vec<PropertyValue> = Vec::new();
        match self {
            Command::GetProperty(property) => {
                wire.push(PropertyValue::String("get_property".to_owned()));
                wire.push(PropertyValue::String(property.wire_name().to_owned()));
            },
            Command::SetProperty(property, value) => {
                wire.push(PropertyValue::String("set_property".to_owned()));
                wire.push(PropertyValue::String(property.wire_name().to_owned()));
                wire.push(value.clone());
            },
        }
        assert(wire.deep_view() =~= self.spec_encode());
        wire
    }

    /// Wraps the encoded command in its envelope.
    pub fn request(&self) -> (request: Request)
        ensures
            request.command.deep_view() == self.spec_encode(),
    {
        Request { command: self.encode() }
    }
}

} // verus!
