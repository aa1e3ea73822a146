//! The failures of the bridge, from connecting to converting a result.

use vstd::prelude::*;
use vstd::string::*;

verus! {

/// Why an operation of the bridge failed.
#[derive(Debug, PartialEq, Eq)]
pub enum ComError {
    /// The communication subsystem could not be initialised on this thread.
    NotInitialize(),
    /// The application was found but no instance of it could be created; the
    /// text is the host's own account of the failure.
    ComInstance(String),
    /// No bridge is registered under the key that was asked for.
    NoInterface(String),
    /// The object has no member of that name; the text is the name.
    NoMethod(String),
    /// No application is registered on the host under that name.
    ComNotFound(),
    /// A bridge is already registered under that key.
    PointerAlreadyMapped(),
    /// The member was found but the call failed; the text is the host's own
    /// account of the failure.
    Invoke(String),
    /// The value does not hold the type that was asked of it.
    Conversion(),
}

/// A [`ComError`] with its texts as sequences of characters.
pub ghost enum ComErrorView {
    NotInitialize,
    ComInstance(Seq<char>),
    NoInterface(Seq<char>),
    NoMethod(Seq<char>),
    ComNotFound,
    PointerAlreadyMapped,
    Invoke(Seq<char>),
    Conversion,
}

impl ComErrorView {
    /// The sentence that describes the failure to a user.
    pub open spec fn message(self) -> Seq<char> {
        match self {
            ComErrorView::NotInitialize => "Com initialize error."@,
            ComErrorView::ComInstance(reason) => "Com instance creation error: "@ + reason,
            ComErrorView::NoInterface(_) => "No interface with that name was found."@,
            ComErrorView::NoMethod(_) => "No method with that name was found."@,
            ComErrorView::ComNotFound => "Com object was not found."@,
            ComErrorView::PointerAlreadyMapped => "Com pointer already mapped."@,
            ComErrorView::Invoke(reason) => "Com invocation error: "@ + reason,
            ComErrorView::Conversion => "Value does not hold the requested type."@,
        }
    }
}

impl View for ComError {
    type V = ComErrorView;

    open spec fn view(&self) -> ComErrorView {
        match self {
            ComError::NotInitialize() => ComErrorView::NotInitialize,
            ComError::ComInstance(reason) => ComErrorView::ComInstance(reason@),
            ComError::NoInterface(key) => ComErrorView::NoInterface(key@),
            ComError::NoMethod(name) => ComErrorView::NoMethod(name@),
            ComError::ComNotFound() => ComErrorView::ComNotFound,
            ComError::PointerAlreadyMapped() => ComErrorView::PointerAlreadyMapped,
            ComError::Invoke(reason) => ComErrorView::Invoke(reason@),
            ComError::Conversion() => ComErrorView::Conversion,
        }
    }
}

impl ComError {
    /// The sentence that describes the failure to a user.
    pub fn message(&self) -> (text: String)
        ensures
            text@ == self@.message(),
    {
        match self {
            ComError::NotInitialize() => String::from_str("Com initialize error."),
            ComError::ComInstance(reason) => {
                String::from_str("Com instance creation error: ").concat(reason.as_str())
            },
            ComError::NoInterface(_) => String::from_str("No interface with that name was found."),
            ComError::NoMethod(_) => String::from_str("No method with that name was found."),
            ComError::ComNotFound() => String::from_str("Com object was not found."),
            ComError::PointerAlreadyMapped() => String::from_str("Com pointer already mapped."),
            ComError::Invoke(reason) => {
                String::from_str("Com invocation error: ").concat(reason.as_str())
            },
            ComError::Conversion() => String::from_str("Value does not hold the requested type."),
        }
    }
}

} // verus!
