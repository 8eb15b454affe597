use vstd::prelude::*;

verus! {

/// The outcome of a device operation.
pub type InputResult = Result<(), InputError>;

/// Marker for an operation that the user cancelled.
#[derive(Debug)]
pub struct Interrupt;

impl Interrupt {
    /// The human-readable description of a cancellation.
    pub fn message(&self) -> (r: &'static str)
        ensures
            r@ == "User interrupted operation."@,
    {
        "User interrupted operation."
    }
}

/// The error raised at the binding boundary when a hold was cancelled by
/// pointer movement; it is distinct from generic failures.
pub struct ActionInterrupt {}

impl ActionInterrupt {
    pub fn new() -> (r: Self) {
        ActionInterrupt {}
    }

    /// The text shown for this error.
    #[allow(non_snake_case)]
    pub fn __str__(&self) -> (r: &'static str)
        ensures
            r@ == "Action interrupted by the user."@,
    {
        "Action interrupted by the user."
    }
}

/// Why a device operation failed.
#[derive(Debug)]
pub enum InputError {
    /// A timed hold was aborted because the pointer moved.
    Interrupt,
    /// The backend reported a failure, or the caller gave an invalid value.
    Error(String),
}

impl InputError {
    pub fn error(error: String) -> (r: Self)
        ensures
            r == InputError::Error(error),
    {
        InputError::Error(error)
    }

    pub fn interrupt() -> (r: Self)
        ensures
            r == InputError::Interrupt,
    {
        InputError::Interrupt
    }

    pub open spec fn message_spec(&self) -> Seq<char> {
        match self {
            InputError::Interrupt => "Action interrupted by the user."@,
            InputError::Error(e) => e@,
        }
    }

    /// The human-readable description of the error.
    pub fn message(&self) -> (r: String)
        ensures
            r@ == self.message_spec(),
    {
        match self {
            InputError::Interrupt => String::from_str("Action interrupted by the user."),
            InputError::Error(e) => e.clone(),
        }
    }

    pub fn is_interrupt(&self) -> (r: bool)
        ensures
            r == (*self is Interrupt),
    {
        match self {
            InputError::Interrupt => true,
            InputError::Error(_) => false,
        }
    }
}

} // verus!
