use ec_slimloader::rom::{
    authentication_result, check_kb_status, AuthenticateError, BootStatus, SecureBool,
    KB_STATUS_SUCCESS,
};

#[test]
fn boot_status_decodes_every_code() {
    assert_eq!(BootStatus::try_from(0x5ac3c35a), Ok(BootStatus::Success));
    assert_eq!(BootStatus::try_from(0xc35ac35a), Ok(BootStatus::Fail));
    assert_eq!(BootStatus::try_from(0xc35a5ac3), Ok(BootStatus::InvalidArgument));
    assert_eq!(BootStatus::try_from(0xc3c35a5a), Ok(BootStatus::KeyStoreMarkerInvalid));
    assert_eq!(
        BootStatus::try_from(0xc15a5ac3),
        Ok(BootStatus::HashcryptFinishedWithStatusSuccess)
    );
    assert_eq!(
        BootStatus::try_from(0xc15a5acb),
        Ok(BootStatus::HashcryptFinishedWithStatusFail)
    );
}

#[test]
fn boot_status_refuses_other_words() {
    assert_eq!(BootStatus::try_from(0), Err(()));
    assert_eq!(BootStatus::try_from(0xffff_ffff), Err(()));
    assert_eq!(BootStatus::try_from(0x5ac3c35b), Err(()));
}

#[test]
fn secure_bool_decodes_every_code() {
    assert_eq!(SecureBool::try_from(0xc33cc33c), Ok(SecureBool::True));
    assert_eq!(SecureBool::try_from(0x5aa55aa5), Ok(SecureBool::False));
    assert_eq!(SecureBool::try_from(0xc33c5aa5), Ok(SecureBool::CallProtectSecurityFlags));
    assert_eq!(SecureBool::try_from(0x5aa5c33c), Ok(SecureBool::CallProtectIsAppReady));
    assert_eq!(SecureBool::try_from(0x55aacc33), Ok(SecureBool::TrackerVerified));
}

#[test]
fn secure_bool_refuses_other_words() {
    assert_eq!(SecureBool::try_from(1), Err(()));
    assert_eq!(SecureBool::try_from(0xffff_ffff), Err(()));
}

#[test]
fn kb_status_success_only() {
    assert_eq!(KB_STATUS_SUCCESS, 0);
    assert_eq!(check_kb_status(0), Ok(()));
    assert_eq!(check_kb_status(1), Err(AuthenticateError::Fail));
    assert_eq!(check_kb_status(10101), Err(AuthenticateError::Fail));
}

const SUCCESS: u32 = 0x5ac3c35a;
const TRACKER_VERIFIED: u32 = 0x55aacc33;

#[test]
fn authentication_succeeds_when_verified() {
    assert_eq!(authentication_result(SUCCESS, TRACKER_VERIFIED), Ok(()));
}

#[test]
fn authentication_refused_when_not_verified() {
    assert_eq!(
        authentication_result(SUCCESS, 0x5aa55aa5),
        Err(AuthenticateError::SignUnverified)
    );
    // A secure "true" is not the tracker's verdict.
    assert_eq!(authentication_result(SUCCESS, 0xc33cc33c), Err(AuthenticateError::SignUnknown));
    // The placeholder the ROM was handed and did not overwrite.
    assert_eq!(authentication_result(SUCCESS, 0xffff_ffff), Err(AuthenticateError::SignUnknown));
}

#[test]
fn authentication_failure_statuses() {
    assert_eq!(authentication_result(0xc35ac35a, TRACKER_VERIFIED), Err(AuthenticateError::Fail));
    assert_eq!(
        authentication_result(0xc35a5ac3, TRACKER_VERIFIED),
        Err(AuthenticateError::UnexpectedValueInImage)
    );
    assert_eq!(
        authentication_result(0xc3c35a5a, TRACKER_VERIFIED),
        Err(AuthenticateError::KeyStoreMarkerInvalid)
    );
    assert_eq!(
        authentication_result(0xc15a5ac3, TRACKER_VERIFIED),
        Err(AuthenticateError::BootStatusUnknown)
    );
    assert_eq!(
        authentication_result(0xc15a5acb, TRACKER_VERIFIED),
        Err(AuthenticateError::BootStatusUnknown)
    );
    assert_eq!(authentication_result(0x1234, TRACKER_VERIFIED), Err(AuthenticateError::BootStatusUnknown));
}
