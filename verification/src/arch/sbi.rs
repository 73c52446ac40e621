//! Results of calls into the Supervisor Binary Interface (SBI).
use vstd::prelude::*;

verus! {

/// The error codes an SBI call returns, and codes outside the standard range.
#[allow(non_camel_case_types)]
#[derive(Clone, Copy, Debug, PartialEq, Eq, Structural)]
pub enum SbiError {
    SBI_SUCCESS,
    SBI_ERR_FAILED,
    SBI_ERR_NOT_SUPPORTED,
    SBI_ERR_INVALID_PARAM,
    SBI_ERR_DENIED,
    SBI_ERR_INVALID_ADDRESS,
    SBI_ERR_ALREADY_AVAILABLE,
    SBI_ERR_ALREADY_STARTED,
    SBI_ERR_ALREADY_STOPPED,
    SBI_ERR_NO_SHMEM,
    OTO_PARSE_FAILED(isize),
}

/// The meaning of an SBI error code: 0 is success, -1 to -9 the standard errors in order,
/// anything else is not a standard code.
pub open spec fn sbi_error_of(code: isize) -> SbiError {
    if code == 0 {
        SbiError::SBI_SUCCESS
    } else if code == -1 {
        SbiError::SBI_ERR_FAILED
    } else if code == -2 {
        SbiError::SBI_ERR_NOT_SUPPORTED
    } else if code == -3 {
        SbiError::SBI_ERR_INVALID_PARAM
    } else if code == -4 {
        SbiError::SBI_ERR_DENIED
    } else if code == -5 {
        SbiError::SBI_ERR_INVALID_ADDRESS
    } else if code == -6 {
        SbiError::SBI_ERR_ALREADY_AVAILABLE
    } else if code == -7 {
        SbiError::SBI_ERR_ALREADY_STARTED
    } else if code == -8 {
        SbiError::SBI_ERR_ALREADY_STOPPED
    } else if code == -9 {
        SbiError::SBI_ERR_NO_SHMEM
    } else {
        SbiError::OTO_PARSE_FAILED(code)
    }
}

/// Decodes the error code an SBI call left in `a0`.
pub fn parse_sbi_error(error: isize) -> (r: SbiError)
    ensures
        r == sbi_error_of(error),
{
    let errors = [
        SbiError::SBI_SUCCESS,
        SbiError::SBI_ERR_FAILED,
        SbiError::SBI_ERR_NOT_SUPPORTED,
        SbiError::SBI_ERR_INVALID_PARAM,
        SbiError::SBI_ERR_DENIED,
        SbiError::SBI_ERR_INVALID_ADDRESS,
        SbiError::SBI_ERR_ALREADY_AVAILABLE,
        SbiError::SBI_ERR_ALREADY_STARTED,
        SbiError::SBI_ERR_ALREADY_STOPPED,
        SbiError::SBI_ERR_NO_SHMEM,
    ];
    if -9 <= error && error <= 0 {
        let idx: usize = (-error) as usize;
        errors[idx]
    } else {
        SbiError::OTO_PARSE_FAILED(error)
    }
}

/// The result of an SBI call from its error code `errno` (`a0`) and value `value` (`a1`):
/// the value when the call succeeded, the decoded error otherwise.
pub fn sbi_result(errno: isize, value: isize) -> (r: Result<usize, SbiError>)
    ensures
        errno == 0 ==> r == Ok::<usize, SbiError>(value as usize),
        errno != 0 ==> r == Err::<usize, SbiError>(sbi_error_of(errno)),
{
    match parse_sbi_error(errno) {
        SbiError::SBI_SUCCESS => Ok(value as usize),
        other => Err(other),
    }
}

/// Distinct codes decode to distinct meanings, and only 0 means success.
pub proof fn lemma_sbi_error_of_injective(a: isize, b: isize)
    ensures
        sbi_error_of(a) == sbi_error_of(b) <==> a == b,
        sbi_error_of(a) == SbiError::SBI_SUCCESS <==> a == 0,
{
}

} // verus!
