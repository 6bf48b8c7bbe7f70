//! Decoders for the response packets of an R502-family optical fingerprint
//! sensor. A response arrives as one already-framed byte payload; the crate
//! reads the big-endian fields at their fixed offsets and maps single-byte
//! confirmation codes onto closed enums, reporting malformed input as a
//! decode error instead of reading past the buffer or accepting an unknown
//! code.

pub mod fields;
pub mod responses;
