//! Firmware status codes.
//!
//! A status is one machine word. Zero is success, a word whose two highest
//! bits are `10` is an error, and a non-zero word whose two highest bits are
//! `00` is a warning. The library never remaps a code: what firmware
//! reported is what the caller sees.

use vstd::prelude::*;

verus! {

/// A status code exactly as firmware reported it.
#[derive(Clone, Copy, Debug, PartialEq, Eq, Structural)]
pub struct Status {
    pub code: usize,
}

/// The highest bit of a machine word, which every error code carries.
pub open spec fn error_bit() -> int {
    usize::MAX as int / 2 + 1
}

/// The weight of the second-highest bit of a machine word.
pub open spec fn class_unit() -> int {
    usize::MAX as int / 4 + 1
}

/// `Status::SUCCESS.as_usize()` of `r_efi`: the success code, which is zero.
#[verifier::external_body]
fn success_code() -> (code: usize)
    ensures
        code == 0,
{
    r_efi::efi::Status::SUCCESS.as_usize()
}

/// `Status::BUFFER_TOO_SMALL.as_usize()` of `r_efi`: error number 5, that is
/// 5 with the highest bit of the word set.
#[verifier::external_body]
fn buffer_too_small_code() -> (code: usize)
    ensures
        code as int == error_bit() + 5,
{
    r_efi::efi::Status::BUFFER_TOO_SMALL.as_usize()
}

/// `Status::NOT_FOUND.as_usize()` of `r_efi`: error number 14, that is 14
/// with the highest bit of the word set.
#[verifier::external_body]
fn not_found_code() -> (code: usize)
    ensures
        code as int == error_bit() + 14,
{
    r_efi::efi::Status::NOT_FOUND.as_usize()
}

/// `Status::WARN_DELETE_FAILURE.as_usize()` of `r_efi`: warning number 2,
/// which carries no high bit.
#[verifier::external_body]
fn warn_delete_failure_code() -> (code: usize)
    ensures
        code == 2,
{
    r_efi::efi::Status::WARN_DELETE_FAILURE.as_usize()
}

/// `Status::is_error` of `r_efi`, on the status made by `Status::from_usize`:
/// true exactly when the two highest bits of the word are `10`.
#[verifier::external_body]
fn code_is_error(code: usize) -> (yes: bool)
    ensures
        yes == (code as int / class_unit() == 2),
{
    r_efi::efi::Status::from_usize(code).is_error()
}

/// `Status::is_warning` of `r_efi`, on the status made by
/// `Status::from_usize`: true exactly when the word is not zero and its two
/// highest bits are `00`.
#[verifier::external_body]
fn code_is_warning(code: usize) -> (yes: bool)
    ensures
        yes == (code != 0 && code as int / class_unit() == 0),
{
    r_efi::efi::Status::from_usize(code).is_warning()
}

impl Status {
    /// The success status.
    pub open spec fn spec_success() -> Status {
        Status { code: 0 }
    }

    /// The error a too-small buffer is answered with.
    pub open spec fn spec_buffer_too_small() -> Status {
        Status { code: (error_bit() + 5) as usize }
    }

    /// The error for something that does not exist.
    pub open spec fn spec_not_found() -> Status {
        Status { code: (error_bit() + 14) as usize }
    }

    /// The warning that a handle was released but its file was kept.
    pub open spec fn spec_warn_delete_failure() -> Status {
        Status { code: 2 }
    }

    /// Whether this is exactly the success code.
    pub open spec fn spec_is_success(self) -> bool {
        self.code == 0
    }

    /// Whether this code is an error.
    pub open spec fn spec_is_error(self) -> bool {
        self.code as int / class_unit() == 2
    }

    /// Whether this code is a warning.
    pub open spec fn spec_is_warning(self) -> bool {
        self.code != 0 && self.code as int / class_unit() == 0
    }

    /// Wraps a raw status word.
    pub fn from_usize(code: usize) -> (status: Status)
        ensures
            status.code == code,
    {
        Status { code }
    }

    /// The raw status word.
    pub fn as_usize(&self) -> (code: usize)
        ensures
            code == self.code,
    {
        self.code
    }

    pub fn success() -> (status: Status)
        ensures
            status == Status::spec_success(),
    {
        Status { code: success_code() }
    }

    pub fn buffer_too_small() -> (status: Status)
        ensures
            status == Status::spec_buffer_too_small(),
    {
        Status { code: buffer_too_small_code() }
    }

    pub fn not_found() -> (status: Status)
        ensures
            status == Status::spec_not_found(),
    {
        Status { code: not_found_code() }
    }

    pub fn warn_delete_failure() -> (status: Status)
        ensures
            status == Status::spec_warn_delete_failure(),
    {
        Status { code: warn_delete_failure_code() }
    }

    pub fn is_success(&self) -> (yes: bool)
        ensures
            yes == self.spec_is_success(),
    {
        self.code == success_code()
    }

    pub fn is_error(&self) -> (yes: bool)
        ensures
            yes == self.spec_is_error(),
    {
        code_is_error(self.code)
    }

    pub fn is_warning(&self) -> (yes: bool)
        ensures
            yes == self.spec_is_warning(),
    {
        code_is_warning(self.code)
    }

    /// Turns a firmware answer into a result: the value on success, the
    /// status itself, unchanged, on anything else. A warning counts as
    /// "anything else".
    pub fn into_result<T>(self, value: T) -> (result: Result<T, Status>)
        ensures
            result == Status::outcome(self, value),
    {
        if self.is_success() {
            Ok(value)
        } else {
            Err(self)
        }
    }

    /// What `into_result` returns.
    pub open spec fn outcome<T>(status: Status, value: T) -> Result<T, Status> {
        if status.spec_is_success() {
            Ok(value)
        } else {
            Err(status)
        }
    }
}

/// Success, error and warning are three disjoint classes, and the named
/// codes fall where their names say.
pub proof fn lemma_status_classes(status: Status)
    ensures
        !(status.spec_is_success() && status.spec_is_error()),
        !(status.spec_is_success() && status.spec_is_warning()),
        !(status.spec_is_error() && status.spec_is_warning()),
        Status::spec_success().spec_is_success(),
        Status::spec_buffer_too_small().spec_is_error(),
        Status::spec_not_found().spec_is_error(),
        Status::spec_warn_delete_failure().spec_is_warning(),
        Status::spec_buffer_too_small() != Status::spec_not_found(),
{
    assert(usize::MAX == 0xffff_ffff || usize::MAX == 0xffff_ffff_ffff_ffff) by {
        vstd::layout::unsigned_int_max_values();
    }
    if usize::MAX == 0xffff_ffff {
        assert(error_bit() == 0x8000_0000 && class_unit() == 0x4000_0000);
        assert(Status::spec_buffer_too_small().code == 0x8000_0005);
        assert(Status::spec_not_found().code == 0x8000_000e);
    } else {
        assert(error_bit() == 0x8000_0000_0000_0000 && class_unit() == 0x4000_0000_0000_0000);
        assert(Status::spec_buffer_too_small().code == 0x8000_0000_0000_0005);
        assert(Status::spec_not_found().code == 0x8000_0000_0000_000e);
    }
}

} // verus!
