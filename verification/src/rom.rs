use vstd::prelude::*;

verus! {

/// Status the ROM's key-blob (IAP) driver returns when a call succeeded.
pub const KB_STATUS_SUCCESS: u32 = 0;

/// Why the ROM did not authenticate an image.
#[derive(Clone, Copy, Debug, PartialEq, Eq, Structural)]
pub enum AuthenticateError {
    /// Failed to verify signature.
    SignUnverified,
    /// Failed to verify signature with unknown error.
    SignUnknown,
    /// Failed to authenticate image when parsing certificate header, certificate chain RKH or signature verification fails.
    Fail,
    /// Found an unexpected value in image.
    UnexpectedValueInImage,
    /// The keystore marker on the image is invalid.
    KeyStoreMarkerInvalid,
    /// The function passed an undefined return value.
    BootStatusUnknown,
    /// The function passed an undefined value as `is_sign_verified` value.
    IsSignVerifiedUnknown,
}

/// Status word that the ROM's `skboot_authenticate` returns.
#[derive(Clone, Copy, Debug, PartialEq, Eq, Structural)]
pub enum BootStatus {
    Success,
    Fail,
    InvalidArgument,
    KeyStoreMarkerInvalid,
    HashcryptFinishedWithStatusSuccess,
    HashcryptFinishedWithStatusFail,
}

impl BootStatus {
    /// The word by which the ROM reports this status.
    pub open spec fn code(self) -> u32 {
        match self {
            BootStatus::Success => 0x5ac3c35a,
            BootStatus::Fail => 0xc35ac35a,
            BootStatus::InvalidArgument => 0xc35a5ac3,
            BootStatus::KeyStoreMarkerInvalid => 0xc3c35a5a,
            BootStatus::HashcryptFinishedWithStatusSuccess => 0xc15a5ac3,
            BootStatus::HashcryptFinishedWithStatusFail => 0xc15a5acb,
        }
    }

    /// Decode a status word; a word that is no status's code is refused.
    pub fn try_from(value: u32) -> (r: Result<BootStatus, ()>)
        ensures
            value == 0x5ac3c35a ==> r == Ok::<BootStatus, ()>(BootStatus::Success),
            value == 0xc35ac35a ==> r == Ok::<BootStatus, ()>(BootStatus::Fail),
            value == 0xc35a5ac3 ==> r == Ok::<BootStatus, ()>(BootStatus::InvalidArgument),
            value == 0xc3c35a5a ==> r == Ok::<BootStatus, ()>(BootStatus::KeyStoreMarkerInvalid),
            value == 0xc15a5ac3 ==> r == Ok::<BootStatus, ()>(
                BootStatus::HashcryptFinishedWithStatusSuccess,
            ),
            value == 0xc15a5acb ==> r == Ok::<BootStatus, ()>(
                BootStatus::HashcryptFinishedWithStatusFail,
            ),
            r matches Ok(s) ==> s.code() == value,
            r is Err <==> (forall|s: BootStatus| s.code() != value),
    {
        let r = match value {
            0x5ac3c35a => Ok(BootStatus::Success),
            0xc35ac35a => Ok(BootStatus::Fail),
            0xc35a5ac3 => Ok(BootStatus::InvalidArgument),
            0xc3c35a5a => Ok(BootStatus::KeyStoreMarkerInvalid),
            0xc15a5ac3 => Ok(BootStatus::HashcryptFinishedWithStatusSuccess),
            0xc15a5acb => Ok(BootStatus::HashcryptFinishedWithStatusFail),
            _ => Err(()),
        };
        proof {
            if let Ok(s) = r {
                assert(s.code() == value);
            }
        }
        r
    }
}

/// Hardened boolean through which the ROM reports whether a signature was verified.
#[derive(Clone, Copy, Debug, PartialEq, Eq, Structural)]
pub enum SecureBool {
    True,
    False,
    CallProtectSecurityFlags,
    CallProtectIsAppReady,
    TrackerVerified,
}

impl SecureBool {
    /// The word by which the ROM reports this value.
    pub open spec fn code(self) -> u32 {
        match self {
            SecureBool::True => 0xc33cc33c,
            SecureBool::False => 0x5aa55aa5,
            SecureBool::CallProtectSecurityFlags => 0xc33c5aa5,
            SecureBool::CallProtectIsAppReady => 0x5aa5c33c,
            SecureBool::TrackerVerified => 0x55aacc33,
        }
    }

    /// Decode a hardened boolean; a word that is no value's code is refused.
    pub fn try_from(value: u32) -> (r: Result<SecureBool, ()>)
        ensures
            value == 0xc33cc33c ==> r == Ok::<SecureBool, ()>(SecureBool::True),
            value == 0x5aa55aa5 ==> r == Ok::<SecureBool, ()>(SecureBool::False),
            value == 0xc33c5aa5 ==> r == Ok::<SecureBool, ()>(SecureBool::CallProtectSecurityFlags),
            value == 0x5aa5c33c ==> r == Ok::<SecureBool, ()>(SecureBool::CallProtectIsAppReady),
            value == 0x55aacc33 ==> r == Ok::<SecureBool, ()>(SecureBool::TrackerVerified),
            r matches Ok(s) ==> s.code() == value,
            r is Err <==> (forall|s: SecureBool| s.code() != value),
    {
        let r = match value {
            0xc33cc33c => Ok(SecureBool::True),
            0x5aa55aa5 => Ok(SecureBool::False),
            0xc33c5aa5 => Ok(SecureBool::CallProtectSecurityFlags),
            0x5aa5c33c => Ok(SecureBool::CallProtectIsAppReady),
            0x55aacc33 => Ok(SecureBool::TrackerVerified),
            _ => Err(()),
        };
        proof {
            if let Ok(s) = r {
                assert(s.code() == value);
            }
        }
        r
    }
}

/// Each ROM status has a code of its own.
pub proof fn lemma_boot_status_codes_distinct(a: BootStatus, b: BootStatus)
    ensures
        a.code() == b.code() ==> a == b,
{
}

/// Each hardened boolean has a code of its own.
pub proof fn lemma_secure_bool_codes_distinct(a: SecureBool, b: SecureBool)
    ensures
        a.code() == b.code() ==> a == b,
{
}

/// What a call of the ROM's key-blob driver came to, from the status it returned.
pub open spec fn kb_call_outcome(status: u32) -> Result<(), AuthenticateError> {
    if status == KB_STATUS_SUCCESS {
        Ok(())
    } else {
        Err(AuthenticateError::Fail)
    }
}

/// The outcome of an authentication, from the status word the ROM's
/// `skboot_authenticate` returned and the hardened boolean it wrote.
pub open spec fn authentication_verdict(result: u32, is_sign_verified: u32) -> Result<
    (),
    AuthenticateError,
> {
    if result == BootStatus::Success.code() {
        if is_sign_verified == SecureBool::TrackerVerified.code() {
            Ok(())
        } else if is_sign_verified == SecureBool::False.code() {
            Err(AuthenticateError::SignUnverified)
        } else {
            Err(AuthenticateError::SignUnknown)
        }
    } else if result == BootStatus::Fail.code() {
        Err(AuthenticateError::Fail)
    } else if result == BootStatus::InvalidArgument.code() {
        Err(AuthenticateError::UnexpectedValueInImage)
    } else if result == BootStatus::KeyStoreMarkerInvalid.code() {
        Err(AuthenticateError::KeyStoreMarkerInvalid)
    } else {
        Err(AuthenticateError::BootStatusUnknown)
    }
}

/// Check the status of a call of the ROM's key-blob driver (session set-up or
/// tear-down): anything but success fails the authentication.
pub fn check_kb_status(status: u32) -> (r: Result<(), AuthenticateError>)
    ensures
        r == kb_call_outcome(status),
        r is Ok <==> status == 0,
        r is Err ==> r == Err::<(), AuthenticateError>(AuthenticateError::Fail),
{
    if status != KB_STATUS_SUCCESS {
        return Err(AuthenticateError::Fail);
    }
    Ok(())
}

/// Decide the outcome of an authentication from the status word `result`
/// that the ROM returned and the hardened boolean `is_sign_verified` it wrote.
pub fn authentication_result(result: u32, is_sign_verified: u32) -> (r: Result<
    (),
    AuthenticateError,
>)
    ensures
        r == authentication_verdict(result, is_sign_verified),
        r is Ok <==> (result == 0x5ac3c35a && is_sign_verified == 0x55aacc33),
        result != 0x5ac3c35a ==> r == status_only_verdict(result),
        result == 0x5ac3c35a && is_sign_verified == 0x5aa55aa5 ==> r == Err::<(), AuthenticateError>(
            AuthenticateError::SignUnverified,
        ),
        result == 0x5ac3c35a && is_sign_verified != 0x5aa55aa5 && is_sign_verified != 0x55aacc33
            ==> r == Err::<(), AuthenticateError>(AuthenticateError::SignUnknown),
{
    let status = match BootStatus::try_from(result) {
        Ok(status) => status,
        Err(()) => return Err(AuthenticateError::BootStatusUnknown),
    };
    let is_sign_verified = match SecureBool::try_from(is_sign_verified) {
        Ok(v) => Ok(v),
        Err(()) => Err(AuthenticateError::IsSignVerifiedUnknown),
    };
    match status {
        BootStatus::Success => match is_sign_verified {
            Ok(SecureBool::TrackerVerified) => Ok(()),
            Ok(SecureBool::False) => Err(AuthenticateError::SignUnverified),
            _ => Err(AuthenticateError::SignUnknown),
        },
        BootStatus::Fail => Err(AuthenticateError::Fail),
        BootStatus::InvalidArgument => Err(AuthenticateError::UnexpectedValueInImage),
        BootStatus::KeyStoreMarkerInvalid => Err(AuthenticateError::KeyStoreMarkerInvalid),
        _ => Err(AuthenticateError::BootStatusUnknown),
    }
}

/// An authentication succeeds exactly when the ROM reports success and its
/// signature tracker reports the image verified.
pub proof fn lemma_authenticated_iff_verified(result: u32, is_sign_verified: u32)
    ensures
        authentication_verdict(result, is_sign_verified) is Ok <==> (result
            == BootStatus::Success.code() && is_sign_verified
            == SecureBool::TrackerVerified.code()),
{
}

/// The outcome the ROM's status word alone gives when it is not the Success
/// code: Fail, InvalidArgument and KeyStoreMarkerInvalid map to their errors,
/// any other word is an unknown status.
pub open spec fn status_only_verdict(result: u32) -> Result<(), AuthenticateError> {
    if result == 0xc35ac35a {
        Err(AuthenticateError::Fail)
    } else if result == 0xc35a5ac3 {
        Err(AuthenticateError::UnexpectedValueInImage)
    } else if result == 0xc3c35a5a {
        Err(AuthenticateError::KeyStoreMarkerInvalid)
    } else {
        Err(AuthenticateError::BootStatusUnknown)
    }
}

/// A key-blob driver call is accepted exactly when it returned 0, and any
/// other status fails the authentication with `Fail`.
pub proof fn lemma_kb_status_zero_only(status: u32)
    ensures
        kb_call_outcome(status) is Ok <==> status == 0,
        status != 0 ==> kb_call_outcome(status) == Err::<(), AuthenticateError>(
            AuthenticateError::Fail,
        ),
{
}

/// Unless the ROM reports Success, the hardened boolean plays no part: two
/// authentications with the same status word and any booleans come out the
/// same, and the status word alone names the error.
pub proof fn lemma_failed_status_ignores_signature(result: u32, a: u32, b: u32)
    requires
        result != 0x5ac3c35a,
    ensures
        authentication_verdict(result, a) == authentication_verdict(result, b),
        authentication_verdict(result, a) == status_only_verdict(result),
        result == 0xc35ac35a ==> authentication_verdict(result, a) == Err::<(), AuthenticateError>(
            AuthenticateError::Fail,
        ),
{
}

/// On Success, only the tracker's "verified" word passes; a secure "false"
/// is an unverified signature and any other word an unknown one.
pub proof fn lemma_success_status_reads_signature(is_sign_verified: u32)
    ensures
        authentication_verdict(0x5ac3c35a, is_sign_verified) is Ok <==> is_sign_verified
            == 0x55aacc33,
        is_sign_verified == 0x5aa55aa5 ==> authentication_verdict(0x5ac3c35a, is_sign_verified)
            == Err::<(), AuthenticateError>(AuthenticateError::SignUnverified),
        is_sign_verified != 0x5aa55aa5 && is_sign_verified != 0x55aacc33 ==> authentication_verdict(
            0x5ac3c35a,
            is_sign_verified,
        ) == Err::<(), AuthenticateError>(AuthenticateError::SignUnknown),
{
}

} // verus!
