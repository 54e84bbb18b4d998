//! The single point at which a native status code becomes a result: zero
//! is success, and every other code is an error that remembers the code.

use vstd::prelude::*;

verus! {

/// A failed native call. Holds the status code the call returned, which is
/// never zero.
#[derive(Clone, Copy, Debug, PartialEq, Eq, Hash, Structural)]
pub struct Error {
    code: i32,
}

pub type RpsResult<T> = Result<T, Error>;

impl Error {
    /// The status code this error stands for.
    pub closed spec fn spec_code(self) -> i32 {
        self.code
    }

    #[verifier::type_invariant]
    spec fn code_is_failure(self) -> bool {
        self.code != 0
    }

    #[verifier::when_used_as_spec(spec_code)]
    pub fn code(self) -> (code: i32)
        ensures
            code == self.spec_code(),
            code != 0,
    {
        proof {
            use_type_invariant(self);
        }
        self.code
    }

    /// Two errors are the same error exactly when their codes agree.
    pub proof fn lemma_code_determines(a: Error, b: Error)
        ensures
            a == b <==> a.spec_code() == b.spec_code(),
    {
    }
}

/// Reads a native status code: zero is success, any other code is an
/// error carrying that code.
pub fn result_from_ffi(code: i32) -> (res: RpsResult<()>)
    ensures
        res is Ok <==> code == 0,
        res matches Err(e) ==> e.spec_code() == code,
{
    value_from_ffi(code, ())
}

/// Reads a native status code for a call that wrote `value` through an
/// out-parameter: the value is handed on only when the code is zero.
pub fn value_from_ffi<T>(code: i32, value: T) -> (res: RpsResult<T>)
    ensures
        res is Ok <==> code == 0,
        res is Ok ==> res->Ok_0 == value,
        res matches Err(e) ==> e.spec_code() == code,
{
    if code == 0 {
        Ok(value)
    } else {
        Err(Error { code })
    }
}

/// Distinct failing status codes never collapse into one error.
pub proof fn lemma_distinct_codes_distinct_errors(a: RpsResult<()>, b: RpsResult<()>)
    requires
        a is Err,
        b is Err,
        a->Err_0.spec_code() != b->Err_0.spec_code(),
    ensures
        a != b,
{
}

} // verus!
