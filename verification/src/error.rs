//! Kernel-style error codes: an `Error` is always a negative errno in
//! `[-MAX_ERRNO, -1]`, and C status codes convert to and from `Result`.
use vstd::prelude::*;

verus! {

/// Largest errno value the kernel hands out.
pub const MAX_ERRNO: i32 = 4095;

/// "Invalid argument".
pub const EINVAL: i32 = -22;

/// "No such device".
pub const ENODEV: i32 = -19;

/// "Out of memory".
pub const ENOMEM: i32 = -12;

/// Whether `errno` is a value an `Error` can hold.
pub open spec fn is_valid_errno(errno: int) -> bool {
    -(MAX_ERRNO as int) <= errno <= -1
}

/// A negative errno in `[-MAX_ERRNO, -1]`.
#[derive(Clone, Copy, Debug, PartialEq, Eq, Structural)]
pub struct Error {
    errno: i32,
}

impl View for Error {
    type V = i32;

    closed spec fn view(&self) -> i32 {
        self.errno
    }
}

impl Error {
    #[verifier::type_invariant]
    closed spec fn inv(self) -> bool {
        is_valid_errno(self.errno as int)
    }

    /// Builds an error from a C errno; values out of range become `EINVAL`.
    pub fn from_errno(errno: i32) -> (e: Error)
        ensures
            is_valid_errno(errno as int) ==> e@ == errno,
            !is_valid_errno(errno as int) ==> e@ == EINVAL,
    {
        if errno < -MAX_ERRNO || errno >= 0 {
            Error { errno: EINVAL }
        } else {
            Error { errno }
        }
    }

    /// The errno held by this error.
    pub fn to_errno(&self) -> (r: i32)
        ensures
            r == self@,
            is_valid_errno(r as int),
    {
        proof {
            use_type_invariant(self);
        }
        self.errno
    }
}

/// `-EINVAL`.
pub fn einval() -> (e: Error)
    ensures
        e@ == EINVAL,
{
    Error::from_errno(EINVAL)
}

/// `-ENODEV`.
pub fn enodev() -> (e: Error)
    ensures
        e@ == ENODEV,
{
    Error::from_errno(ENODEV)
}

/// `-ENOMEM`.
pub fn enomem() -> (e: Error)
    ensures
        e@ == ENOMEM,
{
    Error::from_errno(ENOMEM)
}

/// What `to_result` gives for a C status: `Ok` for non-negative statuses, else
/// the errno (out-of-range negatives becoming `EINVAL`).
pub open spec fn status_result(ret: int) -> Result<(), i32> {
    if ret >= 0 {
        Ok(())
    } else if is_valid_errno(ret) {
        Err(ret as i32)
    } else {
        Err(EINVAL)
    }
}

/// The view of a kernel result: the error replaced by its errno.
pub open spec fn result_view<T>(r: Result<T, Error>) -> Result<T, i32> {
    match r {
        Ok(v) => Ok(v),
        Err(e) => Err(e@),
    }
}

/// The errno a failed C status stands for: the status itself when it is a
/// valid errno, `-EINVAL` otherwise.
pub open spec fn errno_of(status: i32) -> i32 {
    if status >= -4095 {
        status
    } else {
        -22i32
    }
}

/// Converts a C status code into a `Result`.
pub fn to_result(ret: i32) -> (r: Result<(), Error>)
    ensures
        result_view(r) == status_result(ret as int),
{
    if ret < 0 {
        Err(Error::from_errno(ret))
    } else {
        Ok(())
    }
}

/// The C integer a callback returns for a result: the value itself, or the
/// (negative) errno.
pub open spec fn result_code(r: Result<i32, i32>) -> i32 {
    match r {
        Ok(x) => x,
        Err(e) => e,
    }
}

/// A unit result with success replaced by the value `0`.
pub open spec fn zero_on_success(r: Result<(), i32>) -> Result<i32, i32> {
    match r {
        Ok(()) => Ok(0i32),
        Err(e) => Err(e),
    }
}

/// Converts a result back to the C integer a callback returns. An error's
/// errno is negative and always fits in an `i16`.
pub fn from_result(r: Result<i32, Error>) -> (v: i32)
    ensures
        v == result_code(result_view(r)),
        r is Err ==> i16::MIN <= v < 0,
{
    match r {
        Ok(v) => v,
        Err(e) => e.to_errno(),
    }
}

/// A C status in `[-MAX_ERRNO, 0]` survives the trip through `to_result` and
/// back through `from_result` (with success mapped to `0`).
pub proof fn lemma_status_round_trip(ret: i32)
    requires
        -MAX_ERRNO <= ret <= 0,
    ensures
        result_code(zero_on_success(status_result(ret as int))) == ret,
{
}

/// Statuses that `to_result` accepts are exactly the non-negative ones, and an
/// error it produces is always a valid errno.
pub proof fn lemma_status_result_shape(ret: i32)
    ensures
        status_result(ret as int) is Ok <==> ret >= 0,
        status_result(ret as int) matches Err(e) ==> is_valid_errno(e as int),
{
}

} // verus!
