use r502::responses::{
    DecodeError, GenImgResult, GenImgStatus, PasswordVerificationState, VfyPwdResult,
};

/// A 12-byte short response payload with the given confirmation byte at
/// offset 9.
fn short_payload(confirmation_code: u8) -> [u8; 12] {
    [
        0xef, 0x01, // header
        0x00, 0x00, 0x00, 0x01, // address
        0x07, // identifier
        0x00, 0x03, // length
        confirmation_code,
        0xab, 0xcd, // checksum
    ]
}

#[test]
fn password_verification_state_maps_its_closed_set() {
    assert_eq!(
        PasswordVerificationState::from(0x00),
        Ok(PasswordVerificationState::Correct)
    );
    assert_eq!(
        PasswordVerificationState::from(0x13),
        Ok(PasswordVerificationState::Incorrect)
    );
    assert_eq!(
        PasswordVerificationState::from(0x01),
        Ok(PasswordVerificationState::Error)
    );
}

#[test]
fn password_verification_state_rejects_every_other_byte() {
    for byte in 0..=255u8 {
        if byte != 0x00 && byte != 0x01 && byte != 0x13 {
            assert_eq!(
                PasswordVerificationState::from(byte),
                Err(DecodeError::InvalidStatusByte(byte))
            );
        }
    }
}

#[test]
fn gen_img_status_maps_its_closed_set() {
    assert_eq!(GenImgStatus::from(0x00), Ok(GenImgStatus::Success));
    assert_eq!(GenImgStatus::from(0x01), Ok(GenImgStatus::PacketError));
    assert_eq!(GenImgStatus::from(0x02), Ok(GenImgStatus::FingerNotDetected));
    assert_eq!(GenImgStatus::from(0x03), Ok(GenImgStatus::ImageNotCaptured));
}

#[test]
fn gen_img_status_rejects_every_other_byte() {
    for byte in 4..=255u8 {
        assert_eq!(
            GenImgStatus::from(byte),
            Err(DecodeError::InvalidStatusByte(byte))
        );
    }
}

#[test]
fn vfy_pwd_decodes_each_handshake_outcome() {
    let r = VfyPwdResult::from_payload(&short_payload(0x13)[..]).unwrap();
    assert_eq!(r.confirmation_code, PasswordVerificationState::Incorrect);
    assert_eq!(r.address, 1);
    assert_eq!(r.checksum, 0xabcd);
    let r = VfyPwdResult::from_payload(&short_payload(0x00)[..]).unwrap();
    assert_eq!(r.confirmation_code, PasswordVerificationState::Correct);
    let r = VfyPwdResult::from_payload(&short_payload(0x01)[..]).unwrap();
    assert_eq!(r.confirmation_code, PasswordVerificationState::Error);
    assert_eq!(
        VfyPwdResult::from_payload(&short_payload(0x02)[..]),
        Err(DecodeError::InvalidStatusByte(0x02))
    );
}

#[test]
fn vfy_pwd_rejects_short_payloads() {
    for len in 0..12usize {
        let payload = vec![0u8; len];
        assert_eq!(
            VfyPwdResult::from_payload(&payload),
            Err(DecodeError::TruncatedFrame)
        );
    }
}

#[test]
fn gen_img_decodes_finger_not_detected() {
    let r = GenImgResult::from_payload(&short_payload(0x02)[..]).unwrap();
    assert_eq!(r.confirmation_code, GenImgStatus::FingerNotDetected);
    assert_eq!(r.address, 1);
    assert_eq!(r.checksum, 0xabcd);
}

#[test]
fn gen_img_decodes_each_capture_outcome() {
    let r = GenImgResult::from_payload(&short_payload(0x00)[..]).unwrap();
    assert_eq!(r.confirmation_code, GenImgStatus::Success);
    let r = GenImgResult::from_payload(&short_payload(0x01)[..]).unwrap();
    assert_eq!(r.confirmation_code, GenImgStatus::PacketError);
    let r = GenImgResult::from_payload(&short_payload(0x03)[..]).unwrap();
    assert_eq!(r.confirmation_code, GenImgStatus::ImageNotCaptured);
    assert_eq!(
        GenImgResult::from_payload(&short_payload(0x04)[..]),
        Err(DecodeError::InvalidStatusByte(0x04))
    );
}

#[test]
fn gen_img_rejects_short_payloads() {
    for len in 0..12usize {
        let payload = vec![0u8; len];
        assert_eq!(
            GenImgResult::from_payload(&payload),
            Err(DecodeError::TruncatedFrame)
        );
    }
}
