//! Errno values the guest understands and the conversions into them.

use vstd::prelude::*;

use super::winsock::{winsock_errno, winsock_to_posix};
use super::wire::{le_i32, status_bytes};

verus! {

// The guest is a Linux unikernel (Unikraft) and expects Linux errno
// numbers.

/// I/O error.
pub const EIO: i32 = 5;
/// Bad file descriptor.
pub const EBADF: i32 = 9;
/// Permission denied.
pub const EACCES: i32 = 13;
/// Invalid argument.
pub const EINVAL: i32 = 22;
/// Too many open files.
pub const EMFILE: i32 = 24;
/// Protocol not supported.
pub const EPROTONOSUPPORT: i32 = 93;
/// Address family not supported by protocol.
pub const EAFNOSUPPORT: i32 = 97;
/// Operation now in progress.
pub const EINPROGRESS: i32 = 115;

/// `-errno` for an I/O error whose raw OS code is `raw` (`None` when the
/// error carries no OS code, which reports `EIO`).  The negation wraps, as
/// an `i32` negation does in a release build.
pub open spec fn neg_errno_of(raw: Option<i32>) -> i32 {
    match raw {
        Some(code) => if code == i32::MIN {
            i32::MIN
        } else {
            (-code) as i32
        },
        None => (-EIO) as i32,
    }
}

/// Convert a raw OS error code to `-errno` (see [`neg_errno_of`]).
pub fn neg_errno_code(raw: Option<i32>) -> (r: i32)
    ensures
        r == neg_errno_of(raw),
{
    match raw {
        Some(code) => {
            if code == i32::MIN {
                i32::MIN
            } else {
                -code
            }
        },
        None => (-EIO) as i32,
    }
}

/// `std::io::Error`, carried through opaquely.
#[verifier::external_type_specification]
#[verifier::external_body]
pub struct ExIoError(std::io::Error);

/// The raw OS error code an I/O error carries (`None` when it carries
/// none), as `std::io::Error::raw_os_error` reports it.
pub uninterp spec fn os_error_code(e: std::io::Error) -> Option<i32>;

/// The raw OS error code of an I/O error.
///
/// Trusted wrapper of `std::io::Error::raw_os_error`: its result is the
/// code the error carries, named [`os_error_code`].
#[verifier::external_body]
fn raw_os_error(e: &std::io::Error) -> (r: Option<i32>)
    ensures
        r == os_error_code(*e),
{
    e.raw_os_error()
}

/// Convert an I/O error to `-errno` as `i32`.
///
/// On Unix, `raw_os_error()` returns POSIX errno values directly.
pub fn neg_errno(e: std::io::Error) -> (r: i32)
    ensures
        r == neg_errno_of(os_error_code(e)),
{
    let raw = raw_os_error(&e);
    neg_errno_code(raw)
}

/// Encode an I/O error as a 4-byte `-errno` Vec: the little-endian bytes of
/// [`neg_errno`]'s result.
pub fn errno_vec(e: std::io::Error) -> (r: Vec<u8>)
    ensures
        r@ == le_i32(neg_errno_of(os_error_code(e))),
{
    let code = neg_errno(e);
    status_bytes(code)
}

/// `-errno` for an I/O error on a Windows host, whose raw OS code is a
/// Winsock/Win32 code: the negated Linux errno it translates to (see
/// [`winsock_errno`]), or `EIO` when the error carries no code.  The
/// negation wraps, as an `i32` negation does in a release build.
pub open spec fn neg_errno_win_of(raw: Option<i32>) -> i32 {
    match raw {
        Some(code) => neg_errno_of(Some(winsock_errno(code))),
        None => (-EIO) as i32,
    }
}

/// Convert a raw Winsock/Win32 error code to `-errno` (see
/// [`neg_errno_win_of`]).
pub fn neg_errno_win_code(raw: Option<i32>) -> (r: i32)
    ensures
        r == neg_errno_win_of(raw),
{
    match raw {
        Some(code) => neg_errno_code(Some(winsock_to_posix(code))),
        None => -EIO,
    }
}

/// Convert an I/O error to `-errno` on a Windows host, where
/// `raw_os_error()` returns Winsock/Win32 codes that must be translated to
/// the Linux values the guest expects.
pub fn neg_errno_win(e: std::io::Error) -> (r: i32)
    ensures
        r == neg_errno_win_of(os_error_code(e)),
{
    let raw = raw_os_error(&e);
    neg_errno_win_code(raw)
}

/// Encode an I/O error on a Windows host as a 4-byte `-errno` Vec.
pub fn errno_vec_win(e: std::io::Error) -> (r: Vec<u8>)
    ensures
        r@ == le_i32(neg_errno_win_of(os_error_code(e))),
{
    let code = neg_errno_win(e);
    status_bytes(code)
}

} // verus!
