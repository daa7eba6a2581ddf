use vstd::prelude::*;

verus! {

/// A firmware status code that denotes a failure: never zero.
#[derive(Debug, Clone, Copy, PartialEq, Eq, Structural)]
pub struct StatusCode {
    code: i32,
}

impl StatusCode {
    /// The code as an integer.
    pub closed spec fn value(self) -> i32 {
        self.code
    }

    #[verifier::type_invariant]
    spec fn nonzero(self) -> bool {
        self.code != 0
    }

    /// The status code `n`, or nothing for zero.
    pub fn new(n: i32) -> (r: Option<StatusCode>)
        ensures
            r is Some <==> n != 0,
            r matches Some(z) ==> z.value() == n,
    {
        if n != 0 {
            Some(StatusCode { code: n })
        } else {
            None
        }
    }

    pub fn get(&self) -> (r: i32)
        ensures
            r == self.value(),
            r != 0,
    {
        proof {
            use_type_invariant(self);
        }
        self.code
    }
}

/// Failure reported by the firmware for a control request.
#[derive(Debug, Clone, Copy, PartialEq, Eq, Structural)]
pub enum IoctlError {
    /// Failure carrying the firmware's status code.
    Status(StatusCode),
}

impl IoctlError {
    /// The status code that the error carries.
    pub open spec fn code(self) -> i32 {
        match self {
            IoctlError::Status(n) => n.value(),
        }
    }
}

/// The code that a status integer turns into as an error: the integer itself,
/// or `i32::MAX` for zero, which never denotes a failure.
pub open spec fn status_or_max(status: i32) -> i32 {
    if status != 0 {
        status
    } else {
        i32::MAX
    }
}

/// The error that a status integer stands for.
pub closed spec fn error_of(status: i32) -> IoctlError {
    IoctlError::Status(StatusCode { code: status_or_max(status) })
}

/// Two errors with the same code are the same error.
pub proof fn lemma_code_determines_error(a: IoctlError, b: IoctlError)
    requires
        a.code() == b.code(),
    ensures
        a == b,
{
}

impl From<i32> for IoctlError {
    fn from(status: i32) -> (r: IoctlError)
        ensures
            r == error_of(status),
            r.code() == status_or_max(status),
    {
        if status != 0 {
            IoctlError::Status(StatusCode { code: status })
        } else {
            IoctlError::Status(StatusCode { code: i32::MAX })
        }
    }
}

impl vstd::std_specs::convert::FromSpecImpl<i32> for IoctlError {
    open spec fn obeys_from_spec() -> bool {
        true
    }

    open spec fn from_spec(status: i32) -> IoctlError {
        error_of(status)
    }
}

impl From<IoctlError> for i32 {
    fn from(e: IoctlError) -> (r: i32)
        ensures
            r == e.code(),
            r != 0,
            error_of(r) == e,
    {
        match e {
            IoctlError::Status(n) => n.get(),
        }
    }
}

impl vstd::std_specs::convert::FromSpecImpl<IoctlError> for i32 {
    open spec fn obeys_from_spec() -> bool {
        true
    }

    open spec fn from_spec(e: IoctlError) -> i32 {
        e.code()
    }
}

/// Every nonzero status code survives the trip into an error and back.
pub proof fn lemma_status_round_trip(v: i32)
    requires
        v != 0,
    ensures
        error_of(v).code() == v,
{
}

/// Every error with a nonzero code survives the trip into an integer and back.
pub proof fn lemma_error_round_trip(e: IoctlError)
    requires
        e.code() != 0,
    ensures
        error_of(e.code()) == e,
{
}

} // verus!
