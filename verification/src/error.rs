//! Classification of fan errors.
//!
//! A driver is free to define an error type as rich as its hardware calls for.
//! By mapping each error to an [`ErrorKind`], it lets generic code react to the
//! broad cause without knowing the driver.

use vstd::prelude::*;

verus! {

/// Fan error kind.
///
/// This represents a common set of fan operation errors. Drivers are free to
/// define more specific or additional error types. More kinds may be added, so
/// code that matches on a kind keeps an arm for the ones it does not know.
#[derive(Debug, Copy, Clone, Eq, PartialEq, Ord, PartialOrd, Hash, Structural)]
#[non_exhaustive]
pub enum ErrorKind {
    /// An error occurred on the underlying peripheral supporting the fan,
    /// such as the PWM channel of a PWM-controlled fan.
    Peripheral,
    /// The fan is not capable of operating at the requested speed.
    InvalidSpeed,
    /// A different error occurred. The original error may contain more information.
    Other,
}

impl ErrorKind {
    /// The sentence that describes this kind.
    pub open spec fn spec_message(&self) -> Seq<char> {
        match self {
            ErrorKind::Peripheral => "An error occured on the underlying peripheral"@,
            ErrorKind::InvalidSpeed => "Fan is not capable of operating at the requested speed"@,
            ErrorKind::Other =>
                "A different error occurred. The original error may contain more information"@,
        }
    }

    /// Returns the sentence that describes this kind, for display to a person.
    pub fn message(&self) -> (text: &'static str)
        ensures
            text@ == self.spec_message(),
    {
        match self {
            ErrorKind::Peripheral => "An error occured on the underlying peripheral",
            ErrorKind::InvalidSpeed => "Fan is not capable of operating at the requested speed",
            ErrorKind::Other =>
                "A different error occurred. The original error may contain more information",
        }
    }
}

/// Fan error.
pub trait Error: core::fmt::Debug {
    /// The kind that this error belongs to. It depends on the error value alone.
    spec fn spec_kind(&self) -> ErrorKind;

    /// Convert error to a generic fan error kind.
    ///
    /// By using this method, fan errors freely defined by drivers can be
    /// converted to a set of generic fan errors upon which generic code can act.
    fn kind(&self) -> (kind: ErrorKind)
        ensures
            kind == self.spec_kind(),
    ;
}

impl Error for ErrorKind {
    open spec fn spec_kind(&self) -> ErrorKind {
        *self
    }

    #[inline]
    fn kind(&self) -> (kind: ErrorKind) {
        *self
    }
}

/// The error of a device that cannot fail.
impl Error for core::convert::Infallible {
    open spec fn spec_kind(&self) -> ErrorKind {
        ErrorKind::Other
    }

    /// No value of this type exists, so no program ever gets here.
    #[inline]
    fn kind(&self) -> (kind: ErrorKind) {
        ErrorKind::Other
    }
}

/// Fan error type trait.
///
/// This just defines the error type, to be used by the other traits.
pub trait ErrorType {
    /// Error type
    type Error: Error;
}

/// An exclusive borrow of a device fails with the device's own error type.
impl<T: ErrorType + ?Sized> ErrorType for &mut T {
    type Error = T::Error;
}

/// Classifying an error is stable: whenever `kind` is called twice on the same
/// error value, both calls return the same kind.
pub proof fn kind_is_stable<E: Error + ?Sized>(error: &E, first: ErrorKind, second: ErrorKind)
    requires
        call_ensures(E::kind, (error,), first),
        call_ensures(E::kind, (error,), second),
    ensures
        first == second,
        first == error.spec_kind(),
{
}

} // verus!
