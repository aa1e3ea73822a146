//! The generic value that crosses the boundary to the host: a tagged container
//! of one of a few concrete types, with a typed constructor and a typed
//! accessor for each.

use vstd::prelude::*;
use vstd::std_specs::convert::FromSpecImpl;
use vstd::string::*;

use crate::com_errors::ComError;
use crate::idispatchw::IDispatchW;

verus! {

/// The type tag of a value that holds nothing.
pub const VT_EMPTY: u16 = 0;

/// The type tag of a 32-bit integer.
pub const VT_I4: u16 = 3;

/// The type tag of a double.
pub const VT_R8: u16 = 5;

/// The type tag of a text.
pub const VT_BSTR: u16 = 8;

/// The type tag of an object handle.
pub const VT_DISPATCH: u16 = 9;

/// The type tag of a boolean.
pub const VT_BOOL: u16 = 11;

/// The type tag of a 64-bit integer.
pub const VT_I8: u16 = 20;

/// The type tag of a value that holds nothing as the `windows` crate holds it, in
/// `Win32::System::Variant::VT_EMPTY`: its source gives it the value 0.
#[verifier::external_body]
fn vt_empty() -> (tag: u16)
    ensures
        tag == VT_EMPTY,
{
    windows::Win32::System::Variant::VT_EMPTY.0
}

/// The type tag of a 32-bit integer as the `windows` crate holds it, in
/// `Win32::System::Variant::VT_I4`: its source gives it the value 3.
#[verifier::external_body]
fn vt_i4() -> (tag: u16)
    ensures
        tag == VT_I4,
{
    windows::Win32::System::Variant::VT_I4.0
}

/// The type tag of a double as the `windows` crate holds it, in
/// `Win32::System::Variant::VT_R8`: its source gives it the value 5.
#[verifier::external_body]
fn vt_r8() -> (tag: u16)
    ensures
        tag == VT_R8,
{
    windows::Win32::System::Variant::VT_R8.0
}

/// The type tag of a text as the `windows` crate holds it, in
/// `Win32::System::Variant::VT_BSTR`: its source gives it the value 8.
#[verifier::external_body]
fn vt_bstr() -> (tag: u16)
    ensures
        tag == VT_BSTR,
{
    windows::Win32::System::Variant::VT_BSTR.0
}

/// The type tag of an object handle as the `windows` crate holds it, in
/// `Win32::System::Variant::VT_DISPATCH`: its source gives it the value 9.
#[verifier::external_body]
fn vt_dispatch() -> (tag: u16)
    ensures
        tag == VT_DISPATCH,
{
    windows::Win32::System::Variant::VT_DISPATCH.0
}

/// The type tag of a boolean as the `windows` crate holds it, in
/// `Win32::System::Variant::VT_BOOL`: its source gives it the value 11.
#[verifier::external_body]
fn vt_bool() -> (tag: u16)
    ensures
        tag == VT_BOOL,
{
    windows::Win32::System::Variant::VT_BOOL.0
}

/// The type tag of a 64-bit integer as the `windows` crate holds it, in
/// `Win32::System::Variant::VT_I8`: its source gives it the value 20.
#[verifier::external_body]
fn vt_i8() -> (tag: u16)
    ensures
        tag == VT_I8,
{
    windows::Win32::System::Variant::VT_I8.0
}

/// The type of what a value holds.
#[derive(Clone, Copy, Debug, PartialEq, Eq, Structural)]
pub enum Kind {
    Empty,
    Bool,
    Int,
    Long,
    Float,
    Str,
    Dispatch,
}

impl Kind {
    /// The tag under which the host knows the type.
    pub open spec fn spec_tag(self) -> u16 {
        match self {
            Kind::Empty => VT_EMPTY,
            Kind::Bool => VT_BOOL,
            Kind::Int => VT_I4,
            Kind::Long => VT_I8,
            Kind::Float => VT_R8,
            Kind::Str => VT_BSTR,
            Kind::Dispatch => VT_DISPATCH,
        }
    }

    /// The type that the host knows under a tag, if it is one that a value
    /// can hold.
    pub open spec fn spec_of_tag(tag: u16) -> Option<Kind> {
        if tag == VT_EMPTY {
            Some(Kind::Empty)
        } else if tag == VT_BOOL {
            Some(Kind::Bool)
        } else if tag == VT_I4 {
            Some(Kind::Int)
        } else if tag == VT_I8 {
            Some(Kind::Long)
        } else if tag == VT_R8 {
            Some(Kind::Float)
        } else if tag == VT_BSTR {
            Some(Kind::Str)
        } else if tag == VT_DISPATCH {
            Some(Kind::Dispatch)
        } else {
            None
        }
    }

    /// The tag under which the host knows the type.
    #[verifier::when_used_as_spec(spec_tag)]
    pub fn tag(self) -> (tag: u16)
        ensures
            tag == self.spec_tag(),
    {
        match self {
            Kind::Empty => vt_empty(),
            Kind::Bool => vt_bool(),
            Kind::Int => vt_i4(),
            Kind::Long => vt_i8(),
            Kind::Float => vt_r8(),
            Kind::Str => vt_bstr(),
            Kind::Dispatch => vt_dispatch(),
        }
    }

    /// The type that the host knows under a tag, if it is one that a value
    /// can hold.
    pub fn of_tag(tag: u16) -> (kind: Option<Kind>)
        ensures
            kind == Kind::spec_of_tag(tag),
    {
        if tag == vt_empty() {
            Some(Kind::Empty)
        } else if tag == vt_bool() {
            Some(Kind::Bool)
        } else if tag == vt_i4() {
            Some(Kind::Int)
        } else if tag == vt_i8() {
            Some(Kind::Long)
        } else if tag == vt_r8() {
            Some(Kind::Float)
        } else if tag == vt_bstr() {
            Some(Kind::Str)
        } else if tag == vt_dispatch() {
            Some(Kind::Dispatch)
        } else {
            None
        }
    }
}

/// A value as the host takes and returns it. `H` is the type of an object
/// handle; the library never looks inside one.
///
/// A double is held by its bit pattern, as `f64::to_bits` gives it.
#[derive(Debug, PartialEq)]
pub enum RSVariant<H> {
    /// No value: what a call without a result returns.
    Empty,
    Bool(bool),
    Int(i32),
    Long(i64),
    Float(u64),
    Str(String),
    Dispatch(H),
}

/// What an [`RSVariant`] holds, with a text as a sequence of characters.
pub ghost enum Value<H> {
    Empty,
    Bool(bool),
    Int32(i32),
    Int64(i64),
    Float64(u64),
    Text(Seq<char>),
    Object(H),
}

impl<H> Value<H> {
    /// The boolean that the value holds, if it holds one.
    pub open spec fn as_bool(self) -> Option<bool> {
        match self {
            Value::Bool(b) => Some(b),
            _ => None,
        }
    }

    /// The 32-bit integer that the value holds, if it holds one.
    pub open spec fn as_int32(self) -> Option<i32> {
        match self {
            Value::Int32(i) => Some(i),
            _ => None,
        }
    }

    /// The 64-bit integer that the value holds, if it holds one; a 32-bit
    /// integer is widened.
    pub open spec fn as_int64(self) -> Option<i64> {
        match self {
            Value::Int64(i) => Some(i),
            Value::Int32(i) => Some(i as i64),
            _ => None,
        }
    }

    /// The bit pattern of the double that the value holds, if it holds one.
    pub open spec fn as_float64(self) -> Option<u64> {
        match self {
            Value::Float64(bits) => Some(bits),
            _ => None,
        }
    }

    /// The text that the value holds, if it holds one.
    pub open spec fn as_text(self) -> Option<Seq<char>> {
        match self {
            Value::Text(t) => Some(t),
            _ => None,
        }
    }

    /// The object handle that the value holds, if it holds one.
    pub open spec fn as_object(self) -> Option<H> {
        match self {
            Value::Object(h) => Some(h),
            _ => None,
        }
    }

    /// The type of what the value holds.
    pub open spec fn kind(self) -> Kind {
        match self {
            Value::Empty => Kind::Empty,
            Value::Bool(_) => Kind::Bool,
            Value::Int32(_) => Kind::Int,
            Value::Int64(_) => Kind::Long,
            Value::Float64(_) => Kind::Float,
            Value::Text(_) => Kind::Str,
            Value::Object(_) => Kind::Dispatch,
        }
    }
}

impl<H> View for RSVariant<H> {
    type V = Value<H>;

    open spec fn view(&self) -> Value<H> {
        match self {
            RSVariant::Empty => Value::Empty,
            RSVariant::Bool(b) => Value::Bool(*b),
            RSVariant::Int(i) => Value::Int32(*i),
            RSVariant::Long(i) => Value::Int64(*i),
            RSVariant::Float(bits) => Value::Float64(*bits),
            RSVariant::Str(s) => Value::Text(s@),
            RSVariant::Dispatch(h) => Value::Object(*h),
        }
    }
}

impl<H> From<bool> for RSVariant<H> {
    fn from(value: bool) -> (v: Self)
        ensures
            v@ == Value::<H>::Bool(value),
    {
        RSVariant::Bool(value)
    }
}

impl<H> FromSpecImpl<bool> for RSVariant<H> {
    open spec fn obeys_from_spec() -> bool {
        true
    }

    open spec fn from_spec(value: bool) -> Self {
        RSVariant::Bool(value)
    }
}

impl<H> From<i32> for RSVariant<H> {
    fn from(value: i32) -> (v: Self)
        ensures
            v@ == Value::<H>::Int32(value),
    {
        RSVariant::Int(value)
    }
}

impl<H> FromSpecImpl<i32> for RSVariant<H> {
    open spec fn obeys_from_spec() -> bool {
        true
    }

    open spec fn from_spec(value: i32) -> Self {
        RSVariant::Int(value)
    }
}

impl<H> From<i64> for RSVariant<H> {
    fn from(value: i64) -> (v: Self)
        ensures
            v@ == Value::<H>::Int64(value),
    {
        RSVariant::Long(value)
    }
}

impl<H> FromSpecImpl<i64> for RSVariant<H> {
    open spec fn obeys_from_spec() -> bool {
        true
    }

    open spec fn from_spec(value: i64) -> Self {
        RSVariant::Long(value)
    }
}

impl<H> From<&str> for RSVariant<H> {
    fn from(value: &str) -> (v: Self)
        ensures
            v@ == Value::<H>::Text(value@),
    {
        RSVariant::Str(String::from_str(value))
    }
}

/// A text is known by its characters alone, so the value that `from` builds is
/// stated by its view, in the `ensures` of `from`.
impl<H> FromSpecImpl<&str> for RSVariant<H> {
    open spec fn obeys_from_spec() -> bool {
        false
    }

    open spec fn from_spec(value: &str) -> Self {
        arbitrary()
    }
}

impl<H> From<&String> for RSVariant<H> {
    fn from(value: &String) -> (v: Self)
        ensures
            v@ == Value::<H>::Text(value@),
    {
        RSVariant::Str(value.clone())
    }
}

impl<H> FromSpecImpl<&String> for RSVariant<H> {
    open spec fn obeys_from_spec() -> bool {
        true
    }

    open spec fn from_spec(value: &String) -> Self {
        RSVariant::Str(*value)
    }
}

impl<H> From<IDispatchW<H>> for RSVariant<H> {
    fn from(value: IDispatchW<H>) -> (v: Self)
        ensures
            v@ == Value::<H>::Object(value.0),
    {
        RSVariant::Dispatch(value.0)
    }
}

impl<H> FromSpecImpl<IDispatchW<H>> for RSVariant<H> {
    open spec fn obeys_from_spec() -> bool {
        true
    }

    open spec fn from_spec(value: IDispatchW<H>) -> Self {
        RSVariant::Dispatch(value.0)
    }
}

impl<H> RSVariant<H> {
    /// The value that holds the double with this bit pattern.
    pub fn from_float_bits(bits: u64) -> (v: Self)
        ensures
            v@ == Value::<H>::Float64(bits),
    {
        RSVariant::Float(bits)
    }

    /// The boolean that the value holds.
    pub fn bool(&self) -> (out: Result<bool, ComError>)
        ensures
            out == match self@.as_bool() {
                Some(b) => Ok::<bool, ComError>(b),
                None => Err(ComError::Conversion()),
            },
    {
        match self {
            RSVariant::Bool(b) => Ok(*b),
            _ => Err(ComError::Conversion()),
        }
    }

    /// The 32-bit integer that the value holds.
    pub fn int32(&self) -> (out: Result<i32, ComError>)
        ensures
            out == match self@.as_int32() {
                Some(i) => Ok::<i32, ComError>(i),
                None => Err(ComError::Conversion()),
            },
    {
        match self {
            RSVariant::Int(i) => Ok(*i),
            _ => Err(ComError::Conversion()),
        }
    }

    /// The 64-bit integer that the value holds; a 32-bit integer is widened.
    pub fn long(&self) -> (out: Result<i64, ComError>)
        ensures
            out == match self@.as_int64() {
                Some(i) => Ok::<i64, ComError>(i),
                None => Err(ComError::Conversion()),
            },
    {
        match self {
            RSVariant::Long(i) => Ok(*i),
            RSVariant::Int(i) => Ok(*i as i64),
            _ => Err(ComError::Conversion()),
        }
    }

    /// The bit pattern of the double that the value holds.
    pub fn float(&self) -> (out: Result<u64, ComError>)
        ensures
            out == match self@.as_float64() {
                Some(bits) => Ok::<u64, ComError>(bits),
                None => Err(ComError::Conversion()),
            },
    {
        match self {
            RSVariant::Float(bits) => Ok(*bits),
            _ => Err(ComError::Conversion()),
        }
    }

    /// The text that the value holds.
    pub fn string(&self) -> (out: Result<String, ComError>)
        ensures
            match self@.as_text() {
                Some(t) => out matches Ok(s) && s@ == t,
                None => out == Err::<String, ComError>(ComError::Conversion()),
            },
    {
        match self {
            RSVariant::Str(s) => Ok(s.clone()),
            _ => Err(ComError::Conversion()),
        }
    }

    /// A bridge to the object that the value holds. The handle is cloned, so
    /// the value can be asked again.
    pub fn idispatch(&self) -> (out: Result<IDispatchW<H>, ComError>) where H: Clone
        ensures
            match self@.as_object() {
                Some(h) => out matches Ok(w) && cloned(h, w.0),
                None => out == Err::<IDispatchW<H>, ComError>(ComError::Conversion()),
            },
    {
        match self {
            RSVariant::Dispatch(h) => Ok(IDispatchW(h.clone())),
            _ => Err(ComError::Conversion()),
        }
    }

    /// The type of what the value holds.
    pub fn kind(&self) -> (kind: Kind)
        ensures
            kind == self@.kind(),
    {
        match self {
            RSVariant::Empty => Kind::Empty,
            RSVariant::Bool(_) => Kind::Bool,
            RSVariant::Int(_) => Kind::Int,
            RSVariant::Long(_) => Kind::Long,
            RSVariant::Float(_) => Kind::Float,
            RSVariant::Str(_) => Kind::Str,
            RSVariant::Dispatch(_) => Kind::Dispatch,
        }
    }

    /// The raw type tag of the variant that is active.
    pub fn vt(&self) -> (tag: u16)
        ensures
            tag == self@.kind().spec_tag(),
    {
        self.kind().tag()
    }
}

/// A value gives back, through the accessor of its type, what it was built
/// from.
pub proof fn lemma_round_trip<H>(b: bool, i: i32, l: i64, bits: u64, t: Seq<char>, h: H)
    ensures
        Value::<H>::Bool(b).as_bool() == Some(b),
        Value::<H>::Int32(i).as_int32() == Some(i),
        Value::<H>::Int64(l).as_int64() == Some(l),
        Value::<H>::Float64(bits).as_float64() == Some(bits),
        Value::<H>::Text(t).as_text() == Some(t),
        Value::<H>::Object(h).as_object() == Some(h),
{
}

/// An accessor gives nothing on a value of another type. The one pair that
/// is left out is a 32-bit integer asked for as a 64-bit integer, which is
/// widened.
pub proof fn lemma_mismatch_is_refused<H>(v: Value<H>)
    ensures
        !(v is Bool) ==> v.as_bool() is None,
        !(v is Int32) ==> v.as_int32() is None,
        !(v is Int64) && !(v is Int32) ==> v.as_int64() is None,
        !(v is Float64) ==> v.as_float64() is None,
        !(v is Text) ==> v.as_text() is None,
        !(v is Object) ==> v.as_object() is None,
{
}

/// Widening keeps the number: a 32-bit integer asked for as a 64-bit integer
/// gives the same number.
pub proof fn lemma_widening_keeps_the_number<H>(i: i32)
    ensures
        Value::<H>::Int32(i).as_int64() == Some(i as i64),
        i as i64 as int == i as int,
{
}

/// A type is found again under its tag, and a tag that stands for a type is
/// the tag of that type: no two types share one.
pub proof fn lemma_tag_names_one_kind(kind: Kind, tag: u16)
    ensures
        Kind::spec_of_tag(kind.spec_tag()) == Some(kind),
        Kind::spec_of_tag(tag) == Some(kind) ==> kind.spec_tag() == tag,
{
}

} // verus!
