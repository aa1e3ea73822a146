//! The invocation bridge: one object of the host, and the calls made on it.
//!
//! A call is made in two steps, each of which needs the host. The bridge
//! first hands out a [`Resolve`], which names the member whose identifier is
//! to be looked up. Given the identifier, the `Resolve` becomes an
//! [`Invoke`], which holds everything the host is to be presented with.
//! Given the host's answer, the `Invoke` becomes the result of the call.

use vstd::prelude::*;
use vstd::string::*;

use crate::com_errors::{ComError, ComErrorView};
pub use crate::variant::RSVariant;
use crate::variant::{Kind, Value};

verus! {

/// The locale under which a member's name is looked up.
pub const LOCALE_USER_DEFAULT: u32 = 0x0400;

/// The locale under which a member is invoked.
pub const LOCALE_SYSTEM_DEFAULT: u32 = 0x0800;

/// The mode flag of a method call.
pub const DISPATCH_METHOD: u16 = 1;

/// The mode flag of a property read.
pub const DISPATCH_PROPERTYGET: u16 = 2;

/// The mode flag of a property write.
pub const DISPATCH_PROPERTYPUT: u16 = 4;

/// The identifier that marks the argument of a property write as the value
/// being assigned.
pub const DISPID_PROPERTYPUT: i32 = -3;

/// The mode flag of a method call as the `windows` crate holds it, in
/// `Win32::System::Com::DISPATCH_METHOD`: its source gives it the value 1.
#[verifier::external_body]
fn dispatch_method() -> (flags: u16)
    ensures
        flags == DISPATCH_METHOD,
{
    windows::Win32::System::Com::DISPATCH_METHOD.0
}

/// The mode flag of a property read as the `windows` crate holds it, in
/// `Win32::System::Com::DISPATCH_PROPERTYGET`: its source gives it the
/// value 2.
#[verifier::external_body]
fn dispatch_propertyget() -> (flags: u16)
    ensures
        flags == DISPATCH_PROPERTYGET,
{
    windows::Win32::System::Com::DISPATCH_PROPERTYGET.0
}

/// The mode flag of a property write as the `windows` crate holds it, in
/// `Win32::System::Com::DISPATCH_PROPERTYPUT`: its source gives it the
/// value 4.
#[verifier::external_body]
fn dispatch_propertyput() -> (flags: u16)
    ensures
        flags == DISPATCH_PROPERTYPUT,
{
    windows::Win32::System::Com::DISPATCH_PROPERTYPUT.0
}

/// The identifier of the value being assigned as the `windows` crate holds
/// it, in `Win32::System::Ole::DISPID_PROPERTYPUT`: its source gives it the
/// value -3.
#[verifier::external_body]
fn dispid_propertyput() -> (dispid: i32)
    ensures
        dispid == DISPID_PROPERTYPUT,
{
    windows::Win32::System::Ole::DISPID_PROPERTYPUT
}

/// The parameter block that is presented to the host.
#[derive(Debug, PartialEq)]
pub struct DispParams<H> {
    /// The arguments, the caller's last one first.
    pub rgvarg: Vec<RSVariant<H>>,
    /// The identifiers of the named arguments.
    pub named: Vec<i32>,
}

/// Whether a returned value is what the caller wanted: of the wanted type,
/// where one was named.
pub open spec fn admits<H>(want: Option<Kind>, value: Value<H>) -> bool {
    want matches Some(kind) ==> value.kind() == kind
}

/// One call on an object, as the host is to see it.
pub ghost struct Call<H> {
    /// The object on which the call is made.
    pub target: H,
    /// The name of the member.
    pub name: Seq<char>,
    /// The mode flags.
    pub flags: u16,
    /// The arguments of the parameter block, the caller's last one first.
    pub rgvarg: Seq<RSVariant<H>>,
    /// The identifiers of the named arguments of the parameter block.
    pub named: Seq<i32>,
    /// The type that the caller wants back, where it named one.
    pub want: Option<Kind>,
}

/// Whether a call with these mode flags and this many arguments marks an
/// argument as the value being assigned: a property write that has one.
pub open spec fn marks_assignment(flags: u16, n_args: nat) -> bool {
    n_args > 0 && flags & DISPATCH_PROPERTYPUT != 0
}

/// The call that the host is to see for the member `name` of `target`,
/// called with `args` in the caller's order.
pub open spec fn call_of<H>(
    target: H,
    flags: u16,
    name: Seq<char>,
    args: Seq<RSVariant<H>>,
    want: Option<Kind>,
) -> Call<H> {
    Call {
        target,
        name,
        flags,
        rgvarg: args.reverse(),
        named: if marks_assignment(flags, args.len()) {
            seq![DISPID_PROPERTYPUT]
        } else {
            Seq::empty()
        },
        want,
    }
}

/// What a call returns, given the host's answer to it: the answer's value
/// where it is of the wanted type.
pub open spec fn outcome_of<H>(want: Option<Kind>, answer: Result<RSVariant<H>, String>) -> Result<
    RSVariant<H>,
    ComErrorView,
> {
    match answer {
        Err(reason) => Err(ComErrorView::Invoke(reason@)),
        Ok(value) => if admits(want, value@) {
            Ok(value)
        } else {
            Err(ComErrorView::Conversion)
        },
    }
}

/// A call that waits for the identifier of its member.
pub struct Resolve<'a, H> {
    target: &'a H,
    name: String,
    flags: u16,
    params: DispParams<H>,
    want: Option<Kind>,
}

/// A call that waits for the host to run it.
pub struct Invoke<'a, H> {
    target: &'a H,
    name: String,
    dispid: i32,
    flags: u16,
    params: DispParams<H>,
    want: Option<Kind>,
}

impl<'a, H> View for Resolve<'a, H> {
    type V = Call<H>;

    closed spec fn view(&self) -> Call<H> {
        Call {
            target: *self.target,
            name: self.name@,
            flags: self.flags,
            rgvarg: self.params.rgvarg@,
            named: self.params.named@,
            want: self.want,
        }
    }
}

impl<'a, H> View for Invoke<'a, H> {
    type V = Call<H>;

    closed spec fn view(&self) -> Call<H> {
        Call {
            target: *self.target,
            name: self.name@,
            flags: self.flags,
            rgvarg: self.params.rgvarg@,
            named: self.params.named@,
            want: self.want,
        }
    }
}

/// The arguments in the order in which the host expects them: last first.
fn reversed<H>(args: Vec<RSVariant<H>>) -> (out: Vec<RSVariant<H>>)
    ensures
        out@ == args@.reverse(),
{
    let ghost given = args@;
    let mut rest = args;
    let mut out: Vec<RSVariant<H>> = Vec::new();
    while rest.len() > 0
        invariant
            rest@.len() + out@.len() == given.len(),
            rest@ == given.subrange(0, rest@.len() as int),
            forall|j: int| 0 <= j < out@.len() ==> out@[j] == given[given.len() - 1 - j],
        decreases rest@.len(),
    {
        match rest.pop() {
            Some(arg) => out.push(arg),
            None => {},
        }
    }
    assert(out@ =~= given.reverse());
    out
}

impl<'a, H> Resolve<'a, H> {
    fn new(target: &'a H, flags: u16, name: &str, args: Vec<RSVariant<H>>, want: Option<Kind>) -> (call:
        Self)
        ensures
            call@ == call_of(*target, flags, name@, args@, want),
    {
        let mut named: Vec<i32> = Vec::new();
        if args.len() > 0 && (flags & dispatch_propertyput()) != 0 {
            named.push(dispid_propertyput());
        }
        assert(named@ =~= call_of(*target, flags, name@, args@, want).named);
        let rgvarg = reversed(args);
        Resolve { target, name: String::from_str(name), flags, params: DispParams { rgvarg, named }, want }
    }

    /// The object whose member is to be looked up.
    pub fn target(&self) -> (target: &H)
        ensures
            *target == self@.target,
    {
        self.target
    }

    /// The name to look up.
    pub fn name(&self) -> (name: &str)
        ensures
            name@ == self@.name,
    {
        self.name.as_str()
    }

    /// The locale under which to look the name up.
    pub fn lcid(&self) -> (lcid: u32)
        ensures
            lcid == LOCALE_USER_DEFAULT,
    {
        LOCALE_USER_DEFAULT
    }

    /// The call after the look-up. Where the host knows no member of that
    /// name, the call ends here and the host is not asked to run anything.
    pub fn resolved(self, dispid: Option<i32>) -> (out: Result<Invoke<'a, H>, ComError>)
        ensures
            match dispid {
                Some(id) => out matches Ok(invoke) && invoke@ == self@ && invoke.spec_dispid() == id,
                None => out matches Err(e) && e@ == ComErrorView::NoMethod(self@.name),
            },
    {
        match dispid {
            Some(id) => Ok(
                Invoke {
                    target: self.target,
                    name: self.name,
                    dispid: id,
                    flags: self.flags,
                    params: self.params,
                    want: self.want,
                },
            ),
            None => Err(ComError::NoMethod(self.name)),
        }
    }
}

impl<'a, H> Invoke<'a, H> {
    /// The identifier of the member to run.
    pub closed spec fn spec_dispid(&self) -> i32 {
        self.dispid
    }

    /// The object whose member is to be run.
    pub fn target(&self) -> (target: &H)
        ensures
            *target == self@.target,
    {
        self.target
    }

    /// The identifier of the member to run.
    #[verifier::when_used_as_spec(spec_dispid)]
    pub fn dispid(&self) -> (dispid: i32)
        ensures
            dispid == self.spec_dispid(),
    {
        self.dispid
    }

    /// The locale under which to run the member.
    pub fn lcid(&self) -> (lcid: u32)
        ensures
            lcid == LOCALE_SYSTEM_DEFAULT,
    {
        LOCALE_SYSTEM_DEFAULT
    }

    /// The mode flags to run the member with.
    pub fn flags(&self) -> (flags: u16)
        ensures
            flags == self@.flags,
    {
        self.flags
    }

    /// The parameter block to present.
    pub fn params(&self) -> (params: &DispParams<H>)
        ensures
            params.rgvarg@ == self@.rgvarg,
            params.named@ == self@.named,
    {
        &self.params
    }

    /// The result of the call, given the host's answer: the value it
    /// returned, or its own account of why the call failed.
    pub fn returned(self, answer: Result<RSVariant<H>, String>) -> (out: Result<
        RSVariant<H>,
        ComError,
    >)
        ensures
            match outcome_of(self@.want, answer) {
                Ok(value) => out == Ok::<RSVariant<H>, ComError>(value),
                Err(e) => out matches Err(f) && f@ == e,
            },
    {
        match answer {
            Err(reason) => Err(ComError::Invoke(reason)),
            Ok(value) => {
                let fits = match self.want {
                    None => true,
                    Some(kind) => value.kind() == kind,
                };
                if fits {
                    Ok(value)
                } else {
                    Err(ComError::Conversion())
                }
            },
        }
    }
}

/// A bridge to one object of the host. It owns the handle: the handle is
/// neither copied nor shared, and leaves with the bridge.
#[derive(Debug, PartialEq)]
pub struct IDispatchW<H>(pub H);

impl<H> IDispatchW<H> {
    /// The general call: the member `name`, with the mode `flags` and the
    /// arguments `args` in the caller's order.
    pub fn invoke(&self, flags: u16, name: &str, args: Vec<RSVariant<H>>) -> (call: Resolve<'_, H>)
        ensures
            call@ == call_of(self.0, flags, name@, args@, None),
    {
        Resolve::new(&self.0, flags, name, args, None)
    }

    /// Reads the property `name`, indexed by `args` where there are any.
    pub fn get(&self, name: &str, args: Vec<RSVariant<H>>) -> (call: Resolve<'_, H>)
        ensures
            call@ == call_of(self.0, DISPATCH_PROPERTYGET, name@, args@, None),
    {
        Resolve::new(&self.0, dispatch_propertyget(), name, args, None)
    }

    /// Reads the property `name`, indexed by `args`.
    pub fn get_args(&self, name: &str, args: Vec<RSVariant<H>>) -> (call: Resolve<'_, H>)
        ensures
            call@ == call_of(self.0, DISPATCH_PROPERTYGET, name@, args@, None),
    {
        self.get(name, args)
    }

    /// Reads the property `name`, which must hold an object.
    pub fn get_idispatch(&self, name: &str) -> (call: Resolve<'_, H>)
        ensures
            call@ == call_of(
                self.0,
                DISPATCH_PROPERTYGET,
                name@,
                Seq::<RSVariant<H>>::empty(),
                Some(Kind::Dispatch),
            ),
    {
        Resolve::new(&self.0, dispatch_propertyget(), name, Vec::new(), Some(Kind::Dispatch))
    }

    /// Reads the property `name`, indexed by `args`, which must hold an
    /// object.
    pub fn get_idispatch_args(&self, name: &str, args: Vec<RSVariant<H>>) -> (call: Resolve<'_, H>)
        ensures
            call@ == call_of(self.0, DISPATCH_PROPERTYGET, name@, args@, Some(Kind::Dispatch)),
    {
        Resolve::new(&self.0, dispatch_propertyget(), name, args, Some(Kind::Dispatch))
    }

    /// Reads the property `name`, which must hold a 32-bit integer.
    pub fn int32(&self, name: &str, args: Vec<RSVariant<H>>) -> (call: Resolve<'_, H>)
        ensures
            call@ == call_of(self.0, DISPATCH_PROPERTYGET, name@, args@, Some(Kind::Int)),
    {
        Resolve::new(&self.0, dispatch_propertyget(), name, args, Some(Kind::Int))
    }

    /// Reads the property `name`, which must hold a boolean.
    pub fn bool(&self, name: &str, args: Vec<RSVariant<H>>) -> (call: Resolve<'_, H>)
        ensures
            call@ == call_of(self.0, DISPATCH_PROPERTYGET, name@, args@, Some(Kind::Bool)),
    {
        Resolve::new(&self.0, dispatch_propertyget(), name, args, Some(Kind::Bool))
    }

    /// Reads the property `name`, which must hold a double.
    pub fn float(&self, name: &str, args: Vec<RSVariant<H>>) -> (call: Resolve<'_, H>)
        ensures
            call@ == call_of(self.0, DISPATCH_PROPERTYGET, name@, args@, Some(Kind::Float)),
    {
        Resolve::new(&self.0, dispatch_propertyget(), name, args, Some(Kind::Float))
    }

    /// Reads the property `name`, which must hold a text.
    pub fn string(&self, name: &str, args: Vec<RSVariant<H>>) -> (call: Resolve<'_, H>)
        ensures
            call@ == call_of(self.0, DISPATCH_PROPERTYGET, name@, args@, Some(Kind::Str)),
    {
        Resolve::new(&self.0, dispatch_propertyget(), name, args, Some(Kind::Str))
    }

    /// Writes the property `name`; the last of `args` is the value to
    /// assign.
    pub fn put(&self, name: &str, args: Vec<RSVariant<H>>) -> (call: Resolve<'_, H>)
        ensures
            call@ == call_of(self.0, DISPATCH_PROPERTYPUT, name@, args@, None),
    {
        Resolve::new(&self.0, dispatch_propertyput(), name, args, None)
    }

    /// Calls the method `name`.
    pub fn call(&self, name: &str, args: Vec<RSVariant<H>>) -> (call: Resolve<'_, H>)
        ensures
            call@ == call_of(self.0, DISPATCH_METHOD, name@, args@, None),
    {
        Resolve::new(&self.0, dispatch_method(), name, args, None)
    }
}

/// The host sees the arguments in reverse: its first is the caller's last,
/// and none is lost or added.
pub proof fn lemma_arguments_are_reversed<H>(
    target: H,
    flags: u16,
    name: Seq<char>,
    args: Seq<RSVariant<H>>,
    want: Option<Kind>,
)
    ensures
        call_of(target, flags, name, args, want).rgvarg.len() == args.len(),
        forall|i: int|
            0 <= i < args.len() ==> call_of(target, flags, name, args, want).rgvarg[i]
                == args[args.len() - 1 - i],
{
}

/// A property write with an argument marks exactly one named argument, the
/// value being assigned. A property read and a method call mark none,
/// however many arguments they have, and neither does a call without
/// arguments.
pub proof fn lemma_only_a_write_marks_its_argument<H>(
    target: H,
    name: Seq<char>,
    args: Seq<RSVariant<H>>,
    want: Option<Kind>,
)
    ensures
        args.len() > 0 ==> call_of(target, DISPATCH_PROPERTYPUT, name, args, want).named
            == seq![DISPID_PROPERTYPUT],
        args.len() == 0 ==> call_of(target, DISPATCH_PROPERTYPUT, name, args, want).named
            == Seq::<i32>::empty(),
        call_of(target, DISPATCH_PROPERTYGET, name, args, want).named == Seq::<i32>::empty(),
        call_of(target, DISPATCH_METHOD, name, args, want).named == Seq::<i32>::empty(),
{
    assert(4u16 & 4u16 != 0) by (bit_vector);
    assert(2u16 & 4u16 == 0) by (bit_vector);
    assert(1u16 & 4u16 == 0) by (bit_vector);
}

/// A value that a typed read was let through with converts to the type
/// that the read was made for.
pub proof fn lemma_admitted_value_converts<H>(kind: Kind, value: Value<H>)
    requires
        admits(Some(kind), value),
    ensures
        kind == Kind::Bool ==> value.as_bool() is Some,
        kind == Kind::Int ==> value.as_int32() is Some,
        kind == Kind::Long ==> value.as_int64() is Some,
        kind == Kind::Float ==> value.as_float64() is Some,
        kind == Kind::Str ==> value.as_text() is Some,
        kind == Kind::Dispatch ==> value.as_object() is Some,
{
}

} // verus!
