//! Raw OS error codes and the error-translation rules of the library.
//!
//! Every fallible operation in this crate reports a raw errno value, so the
//! originating OS error code is preserved for the caller.  The functions here
//! encode the three translation rules the library applies:
//!
//! * "not found" becomes an absent value,
//! * "already exists" becomes success where creation is idempotent,
//! * a capability-style failure of the fast copy path selects the fallback.

use vstd::prelude::*;

verus! {

/// Operation not permitted.
pub const EPERM: i32 = 1;

/// No such file or directory.
pub const ENOENT: i32 = 2;

/// Input/output error; also reported when a positioned write makes no progress.
pub const EIO: i32 = 5;

/// Try again; reported when the temporary-name retry cap is exhausted.
pub const EAGAIN: i32 = 11;

/// File exists.
pub const EEXIST: i32 = 17;

/// Invalid cross-device link.
pub const EXDEV: i32 = 18;

/// Invalid argument.
pub const EINVAL: i32 = 22;

/// Function not implemented.
pub const ENOSYS: i32 = 38;

/// Value too large for defined data type.
pub const EOVERFLOW: i32 = 75;

/// The error code that names a missing file.
pub open spec fn is_not_found(e: i32) -> bool {
    e == ENOENT
}

/// The error code that names an existing file or directory.
pub open spec fn is_already_exists(e: i32) -> bool {
    e == EEXIST
}

/// The errno values on which a failed range-copy syscall is not an error but
/// a sign that the fast path cannot serve this copy: not implemented, not
/// permitted, invalid argument (pipes, device nodes), or cross-device.
pub open spec fn is_fast_copy_unsupported(e: i32) -> bool {
    e == ENOSYS || e == EPERM || e == EINVAL || e == EXDEV
}

/// The errno values that show the range-copy syscall is missing on this
/// kernel for good, so the process-wide capability flag is downgraded: not
/// implemented, or denied wholesale (for example by seccomp).
pub open spec fn downgrades_fast_copy(e: i32) -> bool {
    e == ENOSYS || e == EPERM
}

/// Whether a fast-path error downgrades the process-wide capability flag.
pub fn is_downgrade_errno(e: i32) -> (b: bool)
    ensures
        b == downgrades_fast_copy(e),
{
    e == ENOSYS || e == EPERM
}

/// What translating a raw result through the "not found is absent" rule gives.
pub open spec fn flatten_not_found<T>(r: Result<T, i32>) -> Result<Option<T>, i32> {
    match r {
        Ok(v) => Ok(Some(v)),
        Err(e) => if is_not_found(e) {
            Ok(None)
        } else {
            Err(e)
        },
    }
}

/// Translate "not found" into an absent value; every other error passes
/// through unchanged.
pub fn not_found_optional<T>(r: Result<T, i32>) -> (res: Result<Option<T>, i32>)
    ensures
        res == flatten_not_found(r),
{
    match r {
        Ok(v) => Ok(Some(v)),
        Err(e) => if e == ENOENT {
            Ok(None)
        } else {
            Err(e)
        },
    }
}

/// What translating a unit result through the "already done" rule gives: the
/// named error code counts as success, every other error passes through.
pub open spec fn flatten_benign(r: Result<(), i32>, benign: i32) -> Result<(), i32> {
    match r {
        Ok(u) => Ok(u),
        Err(e) => if e == benign {
            Ok(())
        } else {
            Err(e)
        },
    }
}

/// Treat one benign error code as success; every other error passes through
/// unchanged.
pub fn ignore_benign(r: Result<(), i32>, benign: i32) -> (res: Result<(), i32>)
    ensures
        res == flatten_benign(r, benign),
{
    match r {
        Ok(u) => Ok(u),
        Err(e) => if e == benign {
            Ok(())
        } else {
            Err(e)
        },
    }
}

/// Not-found translation law: a missing name becomes an absent value and
/// never an error, a present value stays present, and any error other than
/// "not found" is surfaced verbatim.
pub proof fn lemma_not_found_translation<T>(r: Result<T, i32>)
    ensures
        r matches Ok(v) ==> flatten_not_found(r) == Ok::<Option<T>, i32>(Some(v)),
        r == Err::<T, i32>(ENOENT) ==> flatten_not_found(r) == Ok::<Option<T>, i32>(None),
        r matches Err(e) ==> (e != ENOENT ==> flatten_not_found(r) == Err::<Option<T>, i32>(e)),
{
}

/// Idempotent-creation law: a creation that fails only because the target
/// already exists counts as success, and no other error code is swallowed.
pub proof fn lemma_already_exists_is_success(r: Result<(), i32>)
    ensures
        r == Err::<(), i32>(EEXIST) ==> flatten_benign(r, EEXIST) == Ok::<(), i32>(()),
        r matches Err(e) ==> (e != EEXIST ==> flatten_benign(r, EEXIST) == Err::<(), i32>(e)),
        r matches Ok(u) ==> flatten_benign(r, EEXIST) == Ok::<(), i32>(u),
{
}

} // verus!
