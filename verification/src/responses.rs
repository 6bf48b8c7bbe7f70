//! Typed results decoded from R502 response payloads.
//!
//! Each decoder takes one already-framed response payload (the transport has
//! stripped nothing: the payload still starts with the two header bytes) and
//! returns a strongly typed result, or a [`DecodeError`] when the payload is
//! too short for its shape or carries a confirmation code outside its closed
//! set. Checksums are extracted for the caller to validate, never checked
//! here.

use vstd::prelude::*;
use crate::fields::{
    be_u16_at, be_u32_at, lemma_u16_be_round_trip, lemma_u32_be_round_trip, read_be_u16,
    read_be_u32, u16_be_bytes, u32_be_bytes,
};

verus! {

/// Offset of the 4-byte device address within any response payload.
pub const ADDRESS_OFFSET: usize = 2;

/// Offset of the 1-byte confirmation code within any response payload.
pub const CONFIRMATION_OFFSET: usize = 9;

/// Least payload length of a short (address, code, checksum) response.
pub const SHORT_RESPONSE_LEN: usize = 12;

/// Offset of the 2-byte checksum within a short response payload.
pub const SHORT_CHECKSUM_OFFSET: usize = 10;

/// Least payload length of a `ReadSysPara` response.
pub const READ_SYS_PARA_LEN: usize = 28;

/// Offset where the 16-byte system-parameter body of a `ReadSysPara`
/// response begins.
pub const SYS_PARA_BODY_START: usize = 10;

/// Offset just past the system-parameter body of a `ReadSysPara` response.
pub const SYS_PARA_BODY_END: usize = 26;

/// Offset of the 2-byte checksum within a `ReadSysPara` response payload.
pub const SYS_PARA_CHECKSUM_OFFSET: usize = 26;

/// Length of the system-parameter body handed to
/// [`SystemParameters::from_payload`].
pub const SYS_PARA_BODY_LEN: usize = 16;

/// Status-register bit reported by [`SystemParameters::busy`].
pub const BUSY_MASK: u16 = 0x0001;

/// Status-register bit reported by [`SystemParameters::has_finger_match`].
pub const FINGER_MATCH_MASK: u16 = 0x0002;

/// Status-register bit reported by [`SystemParameters::password_ok`].
pub const PASSWORD_OK_MASK: u16 = 0x0004;

/// Status-register bit reported by [`SystemParameters::has_valid_image`].
pub const VALID_IMAGE_MASK: u16 = 0x0008;

/// Why a payload could not be decoded.
#[derive(Clone, Copy, Debug, PartialEq, Eq, Structural)]
pub enum DecodeError {
    /// The payload is shorter than the fixed length its response shape requires.
    TruncatedFrame,
    /// The confirmation-code byte is outside the closed set its response defines.
    InvalidStatusByte(u8),
}

/// Responses to commands returned by the R502, named after the commands.
#[derive(Clone, Copy, Debug)]
pub enum Reply {
    /// Holds system status and configuration information.
    ReadSysPara(ReadSysParaResult),
    /// Holds the result of password verification.
    VfyPwd(VfyPwdResult),
    /// Holds the result of acquiring an image.
    GenImg(GenImgResult),
}

/// Decoded `ReadSysPara` response.
#[derive(Clone, Copy, Debug, PartialEq, Eq, Structural)]
pub struct ReadSysParaResult {
    pub address: u32,
    /// Raw confirmation code; the device answers 0x0f here, which this
    /// decoder extracts without judging it.
    pub confirmation_code: u8,
    pub system_parameters: SystemParameters,
    pub checksum: u16,
}

/// Decoded `VfyPwd` response.
#[derive(Clone, Copy, Debug, PartialEq, Eq, Structural)]
pub struct VfyPwdResult {
    pub address: u32,
    /// Handshake result.
    pub confirmation_code: PasswordVerificationState,
    pub checksum: u16,
}

/// Decoded `GenImg` response.
#[derive(Clone, Copy, Debug, PartialEq, Eq, Structural)]
pub struct GenImgResult {
    pub address: u32,
    /// Fingerprint capture result.
    pub confirmation_code: GenImgStatus,
    pub checksum: u16,
}

/// System status and configuration.
#[derive(Clone, Copy, Debug, PartialEq, Eq, Structural)]
pub struct SystemParameters {
    /// Status flags; use the bit predicates below to read individual bits.
    /// Bits above the lowest four are reserved and carry no meaning here.
    pub status_register: u16,
    /// System identifier code; the datasheet gives it the constant value
    /// 0x0009. Informational, not validated.
    pub system_identifier_code: u16,
    /// Finger library size.
    pub finger_library_size: u16,
    /// Security level, 1 to 5. Not enforced here.
    pub security_level: u16,
    /// Device address, as repeated inside the parameter body.
    pub device_address: u32,
    /// Packet size code, 0 to 3, for 32, 64, 128 or 256 bytes.
    pub packet_size: u16,
    /// Baud setting; multiply by 9600 for the actual baud rate. The wire
    /// layout overlaps this field with `packet_size`: the 16-bit read covers
    /// the same two body bytes, so the two fields decode alike.
    pub baud_setting: u16,
}

/// The result of the password handshake.
#[derive(Clone, Copy, Debug, PartialEq, Eq, Structural)]
pub enum PasswordVerificationState {
    Correct,
    Incorrect,
    Error,
}

/// The result of asking the device to capture a fingerprint image.
#[derive(Clone, Copy, Debug, PartialEq, Eq, Structural)]
pub enum GenImgStatus {
    /// The fingerprint has been captured successfully.
    Success,
    /// The device could not read the command packet from the host.
    PacketError,
    /// No finger was on the sensor.
    FingerNotDetected,
    /// A finger was present but no image could be captured.
    ImageNotCaptured,
}

impl SystemParameters {
    /// The seven fields read big-endian from a 16-byte parameter body.
    /// `baud_setting` reads the same two bytes as `packet_size`: the layout
    /// hands it the tail range of the body, and a 16-bit read of that range
    /// starts at the bytes `packet_size` occupies.
    pub open spec fn spec_from_payload(body: Seq<u8>) -> SystemParameters
        recommends
            body.len() == SYS_PARA_BODY_LEN,
    {
        SystemParameters {
            status_register: be_u16_at(body, 0),
            system_identifier_code: be_u16_at(body, 2),
            finger_library_size: be_u16_at(body, 4),
            security_level: be_u16_at(body, 6),
            device_address: be_u32_at(body, 8),
            packet_size: be_u16_at(body, 12),
            baud_setting: be_u16_at(body, 12),
        }
    }

    /// Decodes the 16-byte system-parameter body of a `ReadSysPara` response.
    pub fn from_payload(payload: &[u8]) -> (r: SystemParameters)
        requires
            payload@.len() == SYS_PARA_BODY_LEN,
        ensures
            r == SystemParameters::spec_from_payload(payload@),
    {
        SystemParameters {
            status_register: read_be_u16(payload, 0),
            system_identifier_code: read_be_u16(payload, 2),
            finger_library_size: read_be_u16(payload, 4),
            security_level: read_be_u16(payload, 6),
            device_address: read_be_u32(payload, 8),
            packet_size: read_be_u16(payload, 12),
            baud_setting: read_be_u16(payload, 12),
        }
    }

    /// What [`SystemParameters::busy`] reports.
    pub open spec fn spec_busy(self) -> bool {
        self.status_register & BUSY_MASK != 0
    }

    /// What [`SystemParameters::has_finger_match`] reports.
    pub open spec fn spec_has_finger_match(self) -> bool {
        self.status_register & FINGER_MATCH_MASK != 0
    }

    /// What [`SystemParameters::password_ok`] reports.
    pub open spec fn spec_password_ok(self) -> bool {
        self.status_register & PASSWORD_OK_MASK != 0
    }

    /// What [`SystemParameters::has_valid_image`] reports.
    pub open spec fn spec_has_valid_image(self) -> bool {
        self.status_register & VALID_IMAGE_MASK != 0
    }

    /// True if the R502 is busy executing another command.
    ///
    /// *Busy* in the datasheet.
    pub fn busy(self) -> (r: bool)
        ensures
            r == self.spec_busy(),
    {
        self.status_register & BUSY_MASK != 0
    }

    /// True if the module found a matching finger; always check the response
    /// to the actual matching request as well.
    ///
    /// *Pass* in the datasheet.
    pub fn has_finger_match(self) -> (r: bool)
        ensures
            r == self.spec_has_finger_match(),
    {
        self.status_register & FINGER_MATCH_MASK != 0
    }

    /// True if the password given in the handshake is correct.
    ///
    /// *PWD* in the datasheet.
    pub fn password_ok(self) -> (r: bool)
        ensures
            r == self.spec_password_ok(),
    {
        self.status_register & PASSWORD_OK_MASK != 0
    }

    /// True if the image buffer contains a valid image.
    ///
    /// *ImgBufStat* in the datasheet.
    pub fn has_valid_image(self) -> (r: bool)
        ensures
            r == self.spec_has_valid_image(),
    {
        self.status_register & VALID_IMAGE_MASK != 0
    }
}

impl ReadSysParaResult {
    /// The fields read from a `ReadSysPara` payload of at least 28 bytes:
    /// device address at 2..6, raw confirmation code at 9, the 16-byte
    /// system-parameter body at 10..26, checksum at 26..28.
    pub open spec fn spec_from_payload(payload: Seq<u8>) -> ReadSysParaResult
        recommends
            payload.len() >= READ_SYS_PARA_LEN,
    {
        ReadSysParaResult {
            address: be_u32_at(payload, ADDRESS_OFFSET as int),
            confirmation_code: payload[CONFIRMATION_OFFSET as int],
            system_parameters: SystemParameters::spec_from_payload(
                payload.subrange(SYS_PARA_BODY_START as int, SYS_PARA_BODY_END as int),
            ),
            checksum: be_u16_at(payload, SYS_PARA_CHECKSUM_OFFSET as int),
        }
    }

    /// Decodes a `ReadSysPara` response payload.
    ///
    /// A payload shorter than 28 bytes is reported as a truncated frame;
    /// nothing is ever read past the end of the buffer.
    pub fn from_payload(payload: &[u8]) -> (r: Result<ReadSysParaResult, DecodeError>)
        ensures
            payload@.len() >= READ_SYS_PARA_LEN ==> r == Ok::<ReadSysParaResult, DecodeError>(
                ReadSysParaResult::spec_from_payload(payload@),
            ),
            payload@.len() < READ_SYS_PARA_LEN ==> r == Err::<ReadSysParaResult, DecodeError>(
                DecodeError::TruncatedFrame,
            ),
    {
        if payload.len() < READ_SYS_PARA_LEN {
            return Err(DecodeError::TruncatedFrame);
        }
        let body = vstd::slice::slice_subrange(payload, SYS_PARA_BODY_START, SYS_PARA_BODY_END);
        Ok(
            ReadSysParaResult {
                address: read_be_u32(payload, ADDRESS_OFFSET),
                confirmation_code: payload[CONFIRMATION_OFFSET],
                system_parameters: SystemParameters::from_payload(body),
                checksum: read_be_u16(payload, SYS_PARA_CHECKSUM_OFFSET),
            },
        )
    }
}

impl PasswordVerificationState {
    /// The closed byte-to-variant mapping of the password handshake: 0x00 is
    /// `Correct`, 0x13 is `Incorrect`, 0x01 is `Error`, and every other byte
    /// is outside the domain.
    pub open spec fn spec_from(byte: u8) -> Result<PasswordVerificationState, DecodeError> {
        if byte == 0x00 {
            Ok(PasswordVerificationState::Correct)
        } else if byte == 0x13 {
            Ok(PasswordVerificationState::Incorrect)
        } else if byte == 0x01 {
            Ok(PasswordVerificationState::Error)
        } else {
            Err(DecodeError::InvalidStatusByte(byte))
        }
    }

    /// Maps a confirmation-code byte onto the handshake result; any byte
    /// outside {0x00, 0x01, 0x13} fails rather than produce a value.
    pub fn from(byte: u8) -> (r: Result<PasswordVerificationState, DecodeError>)
        ensures
            r == PasswordVerificationState::spec_from(byte),
            r is Err <==> !(byte == 0x00 || byte == 0x01 || byte == 0x13),
    {
        match byte {
            0x00 => Ok(PasswordVerificationState::Correct),
            0x13 => Ok(PasswordVerificationState::Incorrect),
            0x01 => Ok(PasswordVerificationState::Error),
            _ => Err(DecodeError::InvalidStatusByte(byte)),
        }
    }
}

impl GenImgStatus {
    /// The closed byte-to-variant mapping of image capture: 0x00 is
    /// `Success`, 0x01 is `PacketError`, 0x02 is `FingerNotDetected`, 0x03 is
    /// `ImageNotCaptured`, and every other byte is outside the domain.
    pub open spec fn spec_from(byte: u8) -> Result<GenImgStatus, DecodeError> {
        if byte == 0x00 {
            Ok(GenImgStatus::Success)
        } else if byte == 0x01 {
            Ok(GenImgStatus::PacketError)
        } else if byte == 0x02 {
            Ok(GenImgStatus::FingerNotDetected)
        } else if byte == 0x03 {
            Ok(GenImgStatus::ImageNotCaptured)
        } else {
            Err(DecodeError::InvalidStatusByte(byte))
        }
    }

    /// Maps a confirmation-code byte onto the capture result; any byte
    /// outside {0x00, 0x01, 0x02, 0x03} fails rather than produce a value.
    pub fn from(byte: u8) -> (r: Result<GenImgStatus, DecodeError>)
        ensures
            r == GenImgStatus::spec_from(byte),
            r is Err <==> byte > 0x03,
    {
        match byte {
            0x00 => Ok(GenImgStatus::Success),
            0x01 => Ok(GenImgStatus::PacketError),
            0x02 => Ok(GenImgStatus::FingerNotDetected),
            0x03 => Ok(GenImgStatus::ImageNotCaptured),
            _ => Err(DecodeError::InvalidStatusByte(byte)),
        }
    }
}

impl VfyPwdResult {
    /// The fields read from a `VfyPwd` payload of at least 12 bytes: device
    /// address at 2..6, handshake state from the byte at 9, checksum at
    /// 10..12. A confirmation byte outside its closed set fails the decode.
    pub open spec fn spec_from_payload(payload: Seq<u8>) -> Result<VfyPwdResult, DecodeError>
        recommends
            payload.len() >= SHORT_RESPONSE_LEN,
    {
        match PasswordVerificationState::spec_from(payload[CONFIRMATION_OFFSET as int]) {
            Ok(state) => Ok(
                (VfyPwdResult {
                    address: be_u32_at(payload, ADDRESS_OFFSET as int),
                    confirmation_code: state,
                    checksum: be_u16_at(payload, SHORT_CHECKSUM_OFFSET as int),
                }),
            ),
            Err(e) => Err(e),
        }
    }

    /// Decodes a `VfyPwd` response payload.
    ///
    /// A payload shorter than 12 bytes is reported as a truncated frame; a
    /// confirmation byte outside {0x00, 0x01, 0x13} as an invalid status
    /// byte carrying that byte.
    pub fn from_payload(payload: &[u8]) -> (r: Result<VfyPwdResult, DecodeError>)
        ensures
            payload@.len() >= SHORT_RESPONSE_LEN ==> r == VfyPwdResult::spec_from_payload(
                payload@,
            ),
            payload@.len() < SHORT_RESPONSE_LEN ==> r == Err::<VfyPwdResult, DecodeError>(
                DecodeError::TruncatedFrame,
            ),
    {
        if payload.len() < SHORT_RESPONSE_LEN {
            return Err(DecodeError::TruncatedFrame);
        }
        let state = match PasswordVerificationState::from(payload[CONFIRMATION_OFFSET]) {
            Ok(state) => state,
            Err(e) => {
                return Err(e);
            },
        };
        Ok(
            VfyPwdResult {
                address: read_be_u32(payload, ADDRESS_OFFSET),
                confirmation_code: state,
                checksum: read_be_u16(payload, SHORT_CHECKSUM_OFFSET),
            },
        )
    }
}

impl GenImgResult {
    /// The fields read from a `GenImg` payload of at least 12 bytes: device
    /// address at 2..6, capture status from the byte at 9, checksum at
    /// 10..12. A confirmation byte outside its closed set fails the decode.
    pub open spec fn spec_from_payload(payload: Seq<u8>) -> Result<GenImgResult, DecodeError>
        recommends
            payload.len() >= SHORT_RESPONSE_LEN,
    {
        match GenImgStatus::spec_from(payload[CONFIRMATION_OFFSET as int]) {
            Ok(status) => Ok(
                (GenImgResult {
                    address: be_u32_at(payload, ADDRESS_OFFSET as int),
                    confirmation_code: status,
                    checksum: be_u16_at(payload, SHORT_CHECKSUM_OFFSET as int),
                }),
            ),
            Err(e) => Err(e),
        }
    }

    /// Decodes a `GenImg` response payload.
    ///
    /// A payload shorter than 12 bytes is reported as a truncated frame; a
    /// confirmation byte outside {0x00, 0x01, 0x02, 0x03} as an invalid
    /// status byte carrying that byte.
    pub fn from_payload(payload: &[u8]) -> (r: Result<GenImgResult, DecodeError>)
        ensures
            payload@.len() >= SHORT_RESPONSE_LEN ==> r == GenImgResult::spec_from_payload(
                payload@,
            ),
            payload@.len() < SHORT_RESPONSE_LEN ==> r == Err::<GenImgResult, DecodeError>(
                DecodeError::TruncatedFrame,
            ),
    {
        if payload.len() < SHORT_RESPONSE_LEN {
            return Err(DecodeError::TruncatedFrame);
        }
        let status = match GenImgStatus::from(payload[CONFIRMATION_OFFSET]) {
            Ok(status) => status,
            Err(e) => {
                return Err(e);
            },
        };
        Ok(
            GenImgResult {
                address: read_be_u32(payload, ADDRESS_OFFSET),
                confirmation_code: status,
                checksum: read_be_u16(payload, SHORT_CHECKSUM_OFFSET),
            },
        )
    }
}

/// The status predicates are independent: each reads one bit of
/// `status_register` of its own. Two parameter blocks that agree on a
/// predicate's bit agree on that predicate whatever their other bits hold; a
/// register with only the busy bit set satisfies `busy` and no other
/// predicate; a register with all four flag bits set satisfies all four; a
/// cleared register satisfies none.
pub proof fn lemma_status_predicates_independent(a: SystemParameters, b: SystemParameters)
    ensures
        a.status_register & BUSY_MASK == b.status_register & BUSY_MASK ==> a.spec_busy()
            == b.spec_busy(),
        a.status_register & FINGER_MATCH_MASK == b.status_register & FINGER_MATCH_MASK
            ==> a.spec_has_finger_match() == b.spec_has_finger_match(),
        a.status_register & PASSWORD_OK_MASK == b.status_register & PASSWORD_OK_MASK
            ==> a.spec_password_ok() == b.spec_password_ok(),
        a.status_register & VALID_IMAGE_MASK == b.status_register & VALID_IMAGE_MASK
            ==> a.spec_has_valid_image() == b.spec_has_valid_image(),
        a.status_register == BUSY_MASK ==> a.spec_busy() && !a.spec_has_finger_match()
            && !a.spec_password_ok() && !a.spec_has_valid_image(),
        a.status_register == BUSY_MASK | FINGER_MATCH_MASK | PASSWORD_OK_MASK | VALID_IMAGE_MASK
            ==> a.spec_busy() && a.spec_has_finger_match() && a.spec_password_ok()
            && a.spec_has_valid_image(),
        a.status_register == 0 ==> !a.spec_busy() && !a.spec_has_finger_match()
            && !a.spec_password_ok() && !a.spec_has_valid_image(),
{
    assert(0x0001u16 & 0x0001u16 != 0 && 0x0001u16 & 0x0002u16 == 0 && 0x0001u16 & 0x0004u16 == 0
        && 0x0001u16 & 0x0008u16 == 0) by (bit_vector);
    assert(0x000fu16 & 0x0001u16 != 0 && 0x000fu16 & 0x0002u16 != 0 && 0x000fu16 & 0x0004u16 != 0
        && 0x000fu16 & 0x0008u16 != 0) by (bit_vector);
    assert(0u16 & 0x0001u16 == 0 && 0u16 & 0x0002u16 == 0 && 0u16 & 0x0004u16 == 0 && 0u16
        & 0x0008u16 == 0) by (bit_vector);
    assert((0x0001u16 | 0x0002u16 | 0x0004u16 | 0x0008u16) == 0x000fu16) by (bit_vector);
}

/// A `ReadSysPara` payload built from given field values: the fixed header,
/// identifier and length bytes, the fields at their documented offsets, big
/// endian, and the 16-byte parameter body between confirmation code and
/// checksum.
pub open spec fn spec_read_sys_para_fixture(
    address: u32,
    confirmation_code: u8,
    status_register: u16,
    system_identifier_code: u16,
    finger_library_size: u16,
    security_level: u16,
    device_address: u32,
    packet_size: u16,
    baud_setting: u16,
    checksum: u16,
) -> Seq<u8> {
    seq![0xefu8, 0x01] + u32_be_bytes(address) + seq![0x01u8, 0x00, 0x13] + seq![confirmation_code]
        + u16_be_bytes(status_register) + u16_be_bytes(system_identifier_code) + u16_be_bytes(
        finger_library_size,
    ) + u16_be_bytes(security_level) + u32_be_bytes(device_address) + u16_be_bytes(packet_size)
        + u16_be_bytes(baud_setting) + u16_be_bytes(checksum)
}

/// Round trip: a `ReadSysPara` payload built from given field values decodes
/// back to exactly those values. `baud_setting` is the one exception the
/// layout forces: the decoder reads it from the two bytes that also hold
/// `packet_size`, so the decoded `baud_setting` equals the `packet_size`
/// that was written, not the trailing baud bytes.
pub proof fn lemma_read_sys_para_round_trip(
    address: u32,
    confirmation_code: u8,
    status_register: u16,
    system_identifier_code: u16,
    finger_library_size: u16,
    security_level: u16,
    device_address: u32,
    packet_size: u16,
    baud_setting: u16,
    checksum: u16,
)
    ensures
        ({
            let p = spec_read_sys_para_fixture(
                address,
                confirmation_code,
                status_register,
                system_identifier_code,
                finger_library_size,
                security_level,
                device_address,
                packet_size,
                baud_setting,
                checksum,
            );
            let r = ReadSysParaResult::spec_from_payload(p);
            &&& p.len() == READ_SYS_PARA_LEN
            &&& r.address == address
            &&& r.confirmation_code == confirmation_code
            &&& r.system_parameters.status_register == status_register
            &&& r.system_parameters.system_identifier_code == system_identifier_code
            &&& r.system_parameters.finger_library_size == finger_library_size
            &&& r.system_parameters.security_level == security_level
            &&& r.system_parameters.device_address == device_address
            &&& r.system_parameters.packet_size == packet_size
            &&& r.system_parameters.baud_setting == packet_size
            &&& r.checksum == checksum
        }),
{
    let p = spec_read_sys_para_fixture(
        address,
        confirmation_code,
        status_register,
        system_identifier_code,
        finger_library_size,
        security_level,
        device_address,
        packet_size,
        baud_setting,
        checksum,
    );
    assert(p.len() == READ_SYS_PARA_LEN);
    let body = p.subrange(SYS_PARA_BODY_START as int, SYS_PARA_BODY_END as int);
    let ab = u32_be_bytes(address);
    assert(p[2] == ab[0] && p[3] == ab[1] && p[4] == ab[2] && p[5] == ab[3]);
    lemma_u32_be_round_trip(address);
    assert(be_u32_at(p, 2) == address);
    assert(p[9] == confirmation_code);
    let sb = u16_be_bytes(status_register);
    assert(body[0] == sb[0] && body[1] == sb[1]);
    lemma_u16_be_round_trip(status_register);
    assert(be_u16_at(body, 0) == status_register);
    let ib = u16_be_bytes(system_identifier_code);
    assert(body[2] == ib[0] && body[3] == ib[1]);
    lemma_u16_be_round_trip(system_identifier_code);
    assert(be_u16_at(body, 2) == system_identifier_code);
    let lb = u16_be_bytes(finger_library_size);
    assert(body[4] == lb[0] && body[5] == lb[1]);
    lemma_u16_be_round_trip(finger_library_size);
    assert(be_u16_at(body, 4) == finger_library_size);
    let vb = u16_be_bytes(security_level);
    assert(body[6] == vb[0] && body[7] == vb[1]);
    lemma_u16_be_round_trip(security_level);
    assert(be_u16_at(body, 6) == security_level);
    let db = u32_be_bytes(device_address);
    assert(body[8] == db[0] && body[9] == db[1] && body[10] == db[2] && body[11] == db[3]);
    lemma_u32_be_round_trip(device_address);
    assert(be_u32_at(body, 8) == device_address);
    let pb = u16_be_bytes(packet_size);
    assert(body[12] == pb[0] && body[13] == pb[1]);
    lemma_u16_be_round_trip(packet_size);
    assert(be_u16_at(body, 12) == packet_size);
    let cb = u16_be_bytes(checksum);
    assert(p[26] == cb[0] && p[27] == cb[1]);
    lemma_u16_be_round_trip(checksum);
    assert(be_u16_at(p, 26) == checksum);
}

} // verus!
