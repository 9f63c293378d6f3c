//! The wire level of the binary sub-message: keys, variable-length integers
//! and the payload of one field after another.

use vstd::prelude::*;
use vstd::slice::*;

use crate::live::error::LiveError;

verus! {

#[verifier::external_type_specification]
#[verifier::external_body]
pub struct ExWireError(prost::DecodeError);

/// The number that `prost::encoding::decode_varint` reads at the start of a
/// buffer, with the count of bytes it takes, where it accepts them.
pub uninterp spec fn varint_decoded(bytes: Seq<u8>) -> Option<(u64, nat)>;

/// The count of bytes that `prost::encoding::skip_field` passes over for a
/// group with the given field number, the buffer starting behind the key
/// that opens the group, where it accepts them.
pub uninterp spec fn group_skipped(tag: u32, bytes: Seq<u8>) -> Option<nat>;

/// `prost::encoding::decode_varint` on a byte slice: the number, and the
/// slice behind the bytes that spell it. A number takes at least one byte
/// and never more than the buffer holds.
#[verifier::external_body]
fn decode_varint(buf: &[u8]) -> (r: Result<(u64, &[u8]), prost::DecodeError>)
    ensures
        r is Ok <==> varint_decoded(buf@) is Some,
        r is Ok ==> {
            let (value, used) = varint_decoded(buf@)->Some_0;
            &&& 1 <= used <= buf@.len()
            &&& r->Ok_0.0 == value
            &&& r->Ok_0.1@ == buf@.skip(used as int)
        },
{
    let mut rest = buf;
    let value = prost::encoding::decode_varint(&mut rest)?;
    Ok((value, rest))
}

/// `prost::encoding::skip_field` for the wire type that opens a group, with a
/// fresh decoding context: the slice behind the key that closes the group.
#[verifier::external_body]
fn skip_group(tag: u32, buf: &[u8]) -> (r: Result<&[u8], prost::DecodeError>)
    ensures
        r is Ok <==> group_skipped(tag, buf@) is Some,
        r is Ok ==> {
            let used = group_skipped(tag, buf@)->Some_0;
            &&& used <= buf@.len()
            &&& r->Ok_0@ == buf@.skip(used as int)
        },
{
    let mut rest = buf;
    prost::encoding::skip_field(
        prost::encoding::WireType::StartGroup,
        tag,
        &mut rest,
        prost::encoding::DecodeContext::default(),
    )?;
    Ok(rest)
}

/// How the payload of a field is laid out.
#[derive(Debug, Clone, Copy, PartialEq, Eq)]
pub enum WireKind {
    Varint,
    SixtyFourBit,
    LengthDelimited,
    StartGroup,
    EndGroup,
    ThirtyTwoBit,
}

/// The layout that the low three bits of a key name.
pub open spec fn wire_kind(code: u64) -> Option<WireKind> {
    if code == 0 {
        Some(WireKind::Varint)
    } else if code == 1 {
        Some(WireKind::SixtyFourBit)
    } else if code == 2 {
        Some(WireKind::LengthDelimited)
    } else if code == 3 {
        Some(WireKind::StartGroup)
    } else if code == 4 {
        Some(WireKind::EndGroup)
    } else if code == 5 {
        Some(WireKind::ThirtyTwoBit)
    } else {
        None
    }
}

/// A number at the start of a buffer, and the rest of the buffer.
pub open spec fn varint_read(bytes: Seq<u8>) -> Option<(u64, Seq<u8>)> {
    match varint_decoded(bytes) {
        Some((value, used)) => Some((value, bytes.skip(used as int))),
        None => None,
    }
}

/// A field key at the start of a buffer: a number that fits 32 bits, whose
/// low three bits name a layout and whose other bits are a field number of
/// at least one; with it the rest of the buffer.
pub open spec fn key_read(bytes: Seq<u8>) -> Option<(u32, WireKind, Seq<u8>)> {
    match varint_read(bytes) {
        Some((key, rest)) => {
            if key > u32::MAX || wire_kind(key & 7) is None || (key >> 3) < 1 {
                None
            } else {
                Some(((key >> 3) as u32, wire_kind(key & 7)->Some_0, rest))
            }
        },
        None => None,
    }
}

/// What one field carries.
pub enum FieldValueView {
    /// A number.
    Varint(u64),
    /// A run of bytes: text, or a nested message.
    Bytes(Seq<u8>),
    /// A payload of fixed width or a group, which no rule reads.
    Other,
}

/// One field of a message: its number and what it carries.
pub struct FieldView {
    pub tag: u32,
    pub value: FieldValueView,
}

/// The field at the start of a buffer, and the rest of the buffer. A run of
/// bytes is as long as the number before it says and must be there in full;
/// fixed payloads take eight or four bytes; a group is passed over; a key
/// that closes a group without one open is refused.
pub open spec fn field_read(bytes: Seq<u8>) -> Option<(FieldView, Seq<u8>)> {
    match key_read(bytes) {
        None => None,
        Some((tag, kind, rest)) => match kind {
            WireKind::Varint => match varint_read(rest) {
                Some((value, after)) => Some(
                    (FieldView { tag, value: FieldValueView::Varint(value) }, after),
                ),
                None => None,
            },
            WireKind::LengthDelimited => match varint_read(rest) {
                Some((len, after)) => if len > after.len() {
                    None
                } else {
                    Some(
                        (
                            FieldView {
                                tag,
                                value: FieldValueView::Bytes(after.subrange(0, len as int)),
                            },
                            after.skip(len as int),
                        ),
                    )
                },
                None => None,
            },
            WireKind::SixtyFourBit => if rest.len() < 8 {
                None
            } else {
                Some((FieldView { tag, value: FieldValueView::Other }, rest.skip(8)))
            },
            WireKind::ThirtyTwoBit => if rest.len() < 4 {
                None
            } else {
                Some((FieldView { tag, value: FieldValueView::Other }, rest.skip(4)))
            },
            WireKind::StartGroup => match group_skipped(tag, rest) {
                Some(used) => Some(
                    (FieldView { tag, value: FieldValueView::Other }, rest.skip(used as int)),
                ),
                None => None,
            },
            WireKind::EndGroup => None,
        },
    }
}

/// The fields that a buffer spells from its first byte to its last, in
/// order; nothing where some part of it is no field.
pub open spec fn fields_read(bytes: Seq<u8>) -> Option<Seq<FieldView>>
    decreases bytes.len(),
{
    if bytes.len() == 0 {
        Some(Seq::empty())
    } else {
        match field_read(bytes) {
            Some((field, rest)) => if rest.len() < bytes.len() {
                match fields_read(rest) {
                    Some(more) => Some(seq![field] + more),
                    None => None,
                }
            } else {
                None
            },
            None => None,
        }
    }
}

/// What one field carries, as read from a buffer.
#[derive(Debug, Clone, Copy, PartialEq, Eq)]
pub enum FieldValue<'a> {
    Varint(u64),
    Bytes(&'a [u8]),
    Other,
}

/// One field of a message, as read from a buffer.
#[derive(Debug, Clone, Copy, PartialEq, Eq)]
pub struct Field<'a> {
    pub tag: u32,
    pub value: FieldValue<'a>,
}

impl<'a> View for Field<'a> {
    type V = FieldView;

    open spec fn view(&self) -> FieldView {
        FieldView {
            tag: self.tag,
            value: match self.value {
                FieldValue::Varint(value) => FieldValueView::Varint(value),
                FieldValue::Bytes(bytes) => FieldValueView::Bytes(bytes@),
                FieldValue::Other => FieldValueView::Other,
            },
        }
    }
}

/// What a list of fields holds.
pub open spec fn field_views(fields: Seq<Field>) -> Seq<FieldView> {
    fields.map_values(|field: Field| field@)
}

/// Reads the number at the start of a buffer.
pub fn read_varint(buf: &[u8]) -> (r: Result<(u64, &[u8]), LiveError>)
    ensures
        match varint_read(buf@) {
            Some((value, rest)) => r is Ok && r->Ok_0.0 == value && r->Ok_0.1@ == rest
                && rest.len() < buf@.len(),
            None => r == Err::<(u64, &[u8]), LiveError>(LiveError::DecodeFailure),
        },
{
    match decode_varint(buf) {
        Ok(found) => Ok(found),
        Err(_) => Err(LiveError::DecodeFailure),
    }
}

/// Reads the key at the start of a buffer.
pub fn read_key(buf: &[u8]) -> (r: Result<(u32, WireKind, &[u8]), LiveError>)
    ensures
        match key_read(buf@) {
            Some((tag, kind, rest)) => r is Ok && r->Ok_0.0 == tag && r->Ok_0.1 == kind
                && r->Ok_0.2@ == rest && rest.len() < buf@.len(),
            None => r == Err::<(u32, WireKind, &[u8]), LiveError>(LiveError::DecodeFailure),
        },
{
    let (key, rest) = read_varint(buf)?;
    if key > 0xffff_ffff {
        return Err(LiveError::DecodeFailure);
    }
    let code = key & 7;
    let kind = if code == 0 {
        WireKind::Varint
    } else if code == 1 {
        WireKind::SixtyFourBit
    } else if code == 2 {
        WireKind::LengthDelimited
    } else if code == 3 {
        WireKind::StartGroup
    } else if code == 4 {
        WireKind::EndGroup
    } else if code == 5 {
        WireKind::ThirtyTwoBit
    } else {
        return Err(LiveError::DecodeFailure);
    };
    let number = key >> 3;
    if number < 1 {
        return Err(LiveError::DecodeFailure);
    }
    assert(key <= 0xffff_ffff ==> (key >> 3) <= 0xffff_ffff) by (bit_vector);
    Ok((number as u32, kind, rest))
}

/// Reads the field at the start of a buffer.
pub fn read_field<'a>(buf: &'a [u8]) -> (r: Result<(Field<'a>, &'a [u8]), LiveError>)
    ensures
        match field_read(buf@) {
            Some((field, rest)) => r is Ok && r->Ok_0.0@ == field && r->Ok_0.1@ == rest
                && rest.len() < buf@.len(),
            None => r == Err::<(Field<'a>, &'a [u8]), LiveError>(LiveError::DecodeFailure),
        },
{
    let (tag, kind, rest) = read_key(buf)?;
    match kind {
        WireKind::Varint => {
            let (value, after) = read_varint(rest)?;
            Ok((Field { tag, value: FieldValue::Varint(value) }, after))
        },
        WireKind::LengthDelimited => {
            let (len, after) = read_varint(rest)?;
            if len > after.len() as u64 {
                return Err(LiveError::DecodeFailure);
            }
            let cut = len as usize;
            let payload = slice_subrange(after, 0, cut);
            let behind = slice_subrange(after, cut, after.len());
            assert(behind@ == after@.skip(cut as int));
            Ok((Field { tag, value: FieldValue::Bytes(payload) }, behind))
        },
        WireKind::SixtyFourBit => {
            if rest.len() < 8 {
                return Err(LiveError::DecodeFailure);
            }
            let behind = slice_subrange(rest, 8, rest.len());
            assert(behind@ == rest@.skip(8));
            Ok((Field { tag, value: FieldValue::Other }, behind))
        },
        WireKind::ThirtyTwoBit => {
            if rest.len() < 4 {
                return Err(LiveError::DecodeFailure);
            }
            let behind = slice_subrange(rest, 4, rest.len());
            assert(behind@ == rest@.skip(4));
            Ok((Field { tag, value: FieldValue::Other }, behind))
        },
        WireKind::StartGroup => match skip_group(tag, rest) {
            Ok(behind) => Ok((Field { tag, value: FieldValue::Other }, behind)),
            Err(_) => Err(LiveError::DecodeFailure),
        },
        WireKind::EndGroup => Err(LiveError::DecodeFailure),
    }
}

/// Splits a buffer into its fields.
pub fn read_fields<'a>(buf: &'a [u8]) -> (r: Result<Vec<Field<'a>>, LiveError>)
    ensures
        match fields_read(buf@) {
            Some(fields) => r is Ok && field_views(r->Ok_0@) == fields,
            None => r == Err::<Vec<Field<'a>>, LiveError>(LiveError::DecodeFailure),
        },
{
    let mut out: Vec<Field<'a>> = Vec::new();
    let mut rest = buf;
    assert(field_views(out@) =~= Seq::empty());
    while rest.len() > 0
        invariant
            fields_read(buf@) == match fields_read(rest@) {
                Some(more) => Some(field_views(out@) + more),
                None => None,
            },
        decreases rest@.len(),
    {
        let ghost before = field_views(out@);
        let (field, behind) = match read_field(rest) {
            Ok(found) => found,
            Err(_) => {
                return Err(LiveError::DecodeFailure);
            },
        };
        out.push(field);
        proof {
            assert(field_views(out@) =~= before.push(field@));
            match fields_read(behind@) {
                Some(more) => {
                    assert(before + (seq![field@] + more) =~= before.push(field@) + more);
                },
                None => {},
            }
        }
        rest = behind;
    }
    assert(field_views(out@) + Seq::<FieldView>::empty() =~= field_views(out@));
    Ok(out)
}

} // verus!
