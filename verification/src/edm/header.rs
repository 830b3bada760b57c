//! The 16-bit header that opens every frame payload.
//!
//! The high twelve bits hold the identifier code and the low three bits the
//! type code. Bit 3 belongs to neither field and is ignored.

use vstd::prelude::*;
use crate::edm::types::{EDMIdentifier, EDMType};

verus! {

/// The identifier code of a header: its high twelve bits.
pub open spec fn header_identifier(header: u16) -> u16 {
    header >> 4
}

/// The type code of a header: its low three bits.
pub open spec fn header_type(header: u16) -> u16 {
    header & 7
}

/// The header that carries `id_code` in its high twelve bits and `type_code`
/// in its low bits.
pub open spec fn header_value(id_code: u16, type_code: u16) -> u16 {
    (id_code << 4) | type_code
}

/// Splits a header into its identifier code and its type code. Every 16-bit
/// value splits; whether the codes are registered is judged later.
pub fn decode_header(header: u16) -> (r: (u16, u16))
    ensures
        r.0 == header_identifier(header),
        r.1 == header_type(header),
        r.0 == header / 16,
        r.1 == header % 8,
{
    assert(header >> 4 == header / 16) by (bit_vector);
    assert(header & 7 == header % 8) by (bit_vector);
    (header >> 4, header & 7)
}

/// Builds the header that names `id` and `ftype`.
pub fn encode_header(id: EDMIdentifier, ftype: EDMType) -> (header: u16)
    ensures
        header == header_value(id.spec_code(), ftype.spec_code()),
        header == 16 * id.spec_code() + ftype.spec_code(),
{
    let i: u16 = id.code();
    let t: u16 = ftype.code();
    assert((i << 4) | t == 16 * i + t) by (bit_vector)
        requires
            i <= 7,
            t <= 6,
    ;
    (i << 4) | t
}

/// The two fields of a header as arithmetic: the identifier code is the
/// header divided by 16, the type code its remainder modulo 8.
pub proof fn lemma_header_fields(header: u16)
    ensures
        header_identifier(header) == header / 16,
        header_type(header) == header % 8,
        header_identifier(header) < 0x1000,
        header_type(header) < 8,
{
    assert(header >> 4 == header / 16) by (bit_vector);
    assert(header & 7 == header % 8) by (bit_vector);
}

/// Decoding a header built from an identifier code of at most twelve bits
/// and a type code of at most three bits gives both codes back.
pub proof fn lemma_header_round_trip(id_code: u16, type_code: u16)
    requires
        id_code < 0x1000,
        type_code < 8,
    ensures
        header_identifier(header_value(id_code, type_code)) == id_code,
        header_type(header_value(id_code, type_code)) == type_code,
{
    assert(((id_code << 4) | type_code) >> 4 == id_code) by (bit_vector)
        requires
            id_code < 0x1000,
            type_code < 8,
    ;
    assert(((id_code << 4) | type_code) & 7 == type_code) by (bit_vector)
        requires
            id_code < 0x1000,
            type_code < 8,
    ;
}

/// The header built for a registered identifier and type decodes to codes
/// that name the same identifier and type.
pub proof fn lemma_header_names_pair(id: EDMIdentifier, ftype: EDMType)
    ensures
        EDMIdentifier::from_code(
            header_identifier(header_value(id.spec_code(), ftype.spec_code())),
        ) == Some(id),
        EDMType::from_code(header_type(header_value(id.spec_code(), ftype.spec_code())))
            == Some(ftype),
{
    lemma_header_round_trip(id.spec_code(), ftype.spec_code());
}

} // verus!
