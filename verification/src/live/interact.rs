//! The binary sub-message that tells of a viewer joining, following or
//! sharing: a message of numbered fields, carried as base64 text.

use vstd::prelude::*;
use vstd::string::*;
use vstd::utf8::*;

use crate::live::error::LiveError;
use crate::live::text::text_of;
use crate::live::wire::{fields_read, field_views, read_fields, Field, FieldValue, FieldValueView, FieldView};

verus! {

/// Field numbers of the interaction message.
pub const FIELD_UID: u32 = 1;

pub const FIELD_UNAME: u32 = 2;

pub const FIELD_MSG_TYPE: u32 = 5;

pub const FIELD_TIMESTAMP: u32 = 7;

pub const FIELD_FANS_MEDAL: u32 = 9;

pub const FIELD_UINFO: u32 = 22;

/// Field numbers of the fan badge nested in it.
pub const FIELD_MEDAL_LEVEL: u32 = 2;

pub const FIELD_MEDAL_SCORE: u32 = 13;

/// Field numbers of the user details nested in it.
pub const FIELD_UINFO_BASE: u32 = 2;

pub const FIELD_UINFO_WEALTH: u32 = 4;

/// Field number of the avatar among the user's base data.
pub const FIELD_BASE_FACE: u32 = 2;

/// Field number of the level among the user's wealth data.
pub const FIELD_WEALTH_LEVEL: u32 = 1;

#[verifier::external_type_specification]
#[verifier::external_body]
pub struct ExBase64Error(base64::DecodeError);

/// The bytes that the standard base64 engine of the `base64` crate decodes a
/// text to, where it accepts the text.
pub uninterp spec fn base64_decoded(text: Seq<char>) -> Option<Seq<u8>>;

/// `Engine::decode` of `base64::engine::general_purpose::STANDARD`: the bytes
/// that the text stands for, or the error of a text that is not base64 with
/// the standard alphabet and canonical padding.
#[verifier::external_body]
fn base64_decode(text: &str) -> (r: Result<Vec<u8>, base64::DecodeError>)
    ensures
        r is Ok <==> base64_decoded(text@) is Some,
        r is Ok ==> r->Ok_0@ == base64_decoded(text@)->Some_0,
{
    base64::Engine::decode(&base64::engine::general_purpose::STANDARD, text.as_bytes())
}

/// `core::str::from_utf8`: the same bytes as text where they are valid
/// UTF-8, and nothing where they are not.
#[verifier::external_body]
fn utf8_text(bytes: &[u8]) -> (r: Option<&str>)
    ensures
        r is Some <==> valid_utf8(bytes@),
        r is Some ==> r->Some_0.spec_bytes() == bytes@,
{
    core::str::from_utf8(bytes).ok()
}

/// What an interaction message tells: who did what and when. The avatar is
/// there where the message has user details with base data, the fan badge
/// where it has one, the wealth level where the user details have wealth
/// data.
#[derive(Debug, Clone, PartialEq, Eq)]
pub struct InteractPayload {
    pub uid: u64,
    pub uname: String,
    pub msg_type: u64,
    pub timestamp: u64,
    pub face: Option<String>,
    pub medal_level: Option<i64>,
    pub medal_score: Option<i64>,
    pub wealth_level: Option<i64>,
}

/// What an `InteractPayload` holds.
pub struct InteractPayloadView {
    pub uid: u64,
    pub uname: Seq<char>,
    pub msg_type: u64,
    pub timestamp: u64,
    pub face: Option<Seq<char>>,
    pub medal_level: Option<i64>,
    pub medal_score: Option<i64>,
    pub wealth_level: Option<i64>,
}

impl View for InteractPayload {
    type V = InteractPayloadView;

    open spec fn view(&self) -> InteractPayloadView {
        InteractPayloadView {
            uid: self.uid,
            uname: self.uname@,
            msg_type: self.msg_type,
            timestamp: self.timestamp,
            face: text_of(self.face),
            medal_level: self.medal_level,
            medal_score: self.medal_score,
            wealth_level: self.wealth_level,
        }
    }
}

/// The signed number that an unsigned one spells in two's complement.
pub open spec fn signed(value: u64) -> i64 {
    if value <= i64::MAX {
        value as i64
    } else {
        (value - 0x1_0000_0000_0000_0000) as i64
    }
}

/// The number that a field carries; a field of another layout carries none.
pub open spec fn number_of(field: FieldView) -> Option<u64> {
    match field.value {
        FieldValueView::Varint(value) => Some(value),
        _ => None,
    }
}

/// The text that a field carries: a run of bytes that is valid UTF-8.
pub open spec fn text_in(field: FieldView) -> Option<Seq<char>> {
    match field.value {
        FieldValueView::Bytes(bytes) => if valid_utf8(bytes) {
            Some(decode_utf8(bytes))
        } else {
            None
        },
        _ => None,
    }
}

/// The fields of the message that a field carries as a run of bytes.
pub open spec fn nested_in(field: FieldView) -> Option<Seq<FieldView>> {
    match field.value {
        FieldValueView::Bytes(bytes) => fields_read(bytes),
        _ => None,
    }
}

/// A fan badge after one more field: level and score are set by their
/// fields, every other field is passed over.
pub open spec fn medal_step(acc: (i64, i64), field: FieldView) -> Option<(i64, i64)> {
    if field.tag == FIELD_MEDAL_LEVEL {
        match number_of(field) {
            Some(value) => Some((signed(value), acc.1)),
            None => None,
        }
    } else if field.tag == FIELD_MEDAL_SCORE {
        match number_of(field) {
            Some(value) => Some((acc.0, signed(value))),
            None => None,
        }
    } else {
        Some(acc)
    }
}

/// A fan badge after a list of fields, of which a later one overrides an
/// earlier one of the same number.
pub open spec fn medal_merged(acc: (i64, i64), fields: Seq<FieldView>) -> Option<(i64, i64)>
    decreases fields.len(),
{
    if fields.len() == 0 {
        Some(acc)
    } else {
        match medal_step(acc, fields.first()) {
            Some(next) => medal_merged(next, fields.drop_first()),
            None => None,
        }
    }
}

/// An avatar after one more field of the base data.
pub open spec fn face_step(acc: Seq<char>, field: FieldView) -> Option<Seq<char>> {
    if field.tag == FIELD_BASE_FACE {
        text_in(field)
    } else {
        Some(acc)
    }
}

/// An avatar after the fields of one more message of base data.
pub open spec fn face_merged(acc: Seq<char>, fields: Seq<FieldView>) -> Option<Seq<char>>
    decreases fields.len(),
{
    if fields.len() == 0 {
        Some(acc)
    } else {
        match face_step(acc, fields.first()) {
            Some(next) => face_merged(next, fields.drop_first()),
            None => None,
        }
    }
}

/// A wealth level after one more field of the wealth data.
pub open spec fn wealth_step(acc: i64, field: FieldView) -> Option<i64> {
    if field.tag == FIELD_WEALTH_LEVEL {
        match number_of(field) {
            Some(value) => Some(signed(value)),
            None => None,
        }
    } else {
        Some(acc)
    }
}

/// A wealth level after the fields of one more message of wealth data.
pub open spec fn wealth_merged(acc: i64, fields: Seq<FieldView>) -> Option<i64>
    decreases fields.len(),
{
    if fields.len() == 0 {
        Some(acc)
    } else {
        match wealth_step(acc, fields.first()) {
            Some(next) => wealth_merged(next, fields.drop_first()),
            None => None,
        }
    }
}

/// The text of an optional text, or the empty text.
pub open spec fn text_or_empty(value: Option<Seq<char>>) -> Seq<char> {
    match value {
        Some(text) => text,
        None => Seq::empty(),
    }
}

/// The number of an optional number, or zero.
pub open spec fn number_or_zero(value: Option<i64>) -> i64 {
    match value {
        Some(number) => number,
        None => 0,
    }
}

/// Avatar and wealth level after one more field of the user details: base
/// data and wealth data are nested messages, each merged into what was there
/// or into an empty one.
pub open spec fn detail_step(acc: (Option<Seq<char>>, Option<i64>), field: FieldView) -> Option<
    (Option<Seq<char>>, Option<i64>),
> {
    if field.tag == FIELD_UINFO_BASE {
        match nested_in(field) {
            Some(inner) => match face_merged(text_or_empty(acc.0), inner) {
                Some(face) => Some((Some(face), acc.1)),
                None => None,
            },
            None => None,
        }
    } else if field.tag == FIELD_UINFO_WEALTH {
        match nested_in(field) {
            Some(inner) => match wealth_merged(number_or_zero(acc.1), inner) {
                Some(level) => Some((acc.0, Some(level))),
                None => None,
            },
            None => None,
        }
    } else {
        Some(acc)
    }
}

/// Avatar and wealth level after a list of fields of the user details.
pub open spec fn detail_merged(
    acc: (Option<Seq<char>>, Option<i64>),
    fields: Seq<FieldView>,
) -> Option<(Option<Seq<char>>, Option<i64>)>
    decreases fields.len(),
{
    if fields.len() == 0 {
        Some(acc)
    } else {
        match detail_step(acc, fields.first()) {
            Some(next) => detail_merged(next, fields.drop_first()),
            None => None,
        }
    }
}

/// The payload before any field is read: numbers are zero, the name is
/// empty, nothing optional is there.
pub open spec fn empty_payload() -> InteractPayloadView {
    InteractPayloadView {
        uid: 0,
        uname: Seq::empty(),
        msg_type: 0,
        timestamp: 0,
        face: None,
        medal_level: None,
        medal_score: None,
        wealth_level: None,
    }
}

/// A payload after one more field of the message.
pub open spec fn payload_step(acc: InteractPayloadView, field: FieldView) -> Option<
    InteractPayloadView,
> {
    if field.tag == FIELD_UID {
        match number_of(field) {
            Some(value) => Some(InteractPayloadView { uid: value, ..acc }),
            None => None,
        }
    } else if field.tag == FIELD_UNAME {
        match text_in(field) {
            Some(text) => Some(InteractPayloadView { uname: text, ..acc }),
            None => None,
        }
    } else if field.tag == FIELD_MSG_TYPE {
        match number_of(field) {
            Some(value) => Some(InteractPayloadView { msg_type: value, ..acc }),
            None => None,
        }
    } else if field.tag == FIELD_TIMESTAMP {
        match number_of(field) {
            Some(value) => Some(InteractPayloadView { timestamp: value, ..acc }),
            None => None,
        }
    } else if field.tag == FIELD_FANS_MEDAL {
        match nested_in(field) {
            Some(inner) => match medal_merged(
                (number_or_zero(acc.medal_level), number_or_zero(acc.medal_score)),
                inner,
            ) {
                Some(medal) => Some(
                    InteractPayloadView {
                        medal_level: Some(medal.0),
                        medal_score: Some(medal.1),
                        ..acc
                    },
                ),
                None => None,
            },
            None => None,
        }
    } else if field.tag == FIELD_UINFO {
        match nested_in(field) {
            Some(inner) => match detail_merged((acc.face, acc.wealth_level), inner) {
                Some(detail) => Some(
                    InteractPayloadView { face: detail.0, wealth_level: detail.1, ..acc },
                ),
                None => None,
            },
            None => None,
        }
    } else {
        Some(acc)
    }
}

/// A payload after a list of fields of the message.
pub open spec fn payload_merged(acc: InteractPayloadView, fields: Seq<FieldView>) -> Option<
    InteractPayloadView,
>
    decreases fields.len(),
{
    if fields.len() == 0 {
        Some(acc)
    } else {
        match payload_step(acc, fields.first()) {
            Some(next) => payload_merged(next, fields.drop_first()),
            None => None,
        }
    }
}

/// The payload that a buffer spells: its fields, merged in order into an
/// empty payload.
pub open spec fn payload_decoded(bytes: Seq<u8>) -> Option<InteractPayloadView> {
    match fields_read(bytes) {
        Some(fields) => payload_merged(empty_payload(), fields),
        None => None,
    }
}

/// What the outcome of a decoding holds.
pub open spec fn view_of_payload(r: Result<InteractPayload, LiveError>) -> Option<
    InteractPayloadView,
> {
    match r {
        Ok(payload) => Some(payload@),
        Err(_) => None,
    }
}

/// Reads an unsigned number as the signed one of the same bits.
pub fn to_signed(value: u64) -> (r: i64)
    ensures
        r == signed(value),
{
    if value <= 0x7fff_ffff_ffff_ffff {
        value as i64
    } else {
        let low: u64 = value - 0x8000_0000_0000_0000;
        (low as i64) + i64::MIN
    }
}

fn field_number(field: &Field) -> (r: Result<u64, LiveError>)
    ensures
        match number_of(field@) {
            Some(value) => r == Ok::<u64, LiveError>(value),
            None => r == Err::<u64, LiveError>(LiveError::DecodeFailure),
        },
{
    match field.value {
        FieldValue::Varint(value) => Ok(value),
        _ => Err(LiveError::DecodeFailure),
    }
}

fn field_text(field: &Field) -> (r: Result<String, LiveError>)
    ensures
        match text_in(field@) {
            Some(text) => r is Ok && r->Ok_0@ == text,
            None => r == Err::<String, LiveError>(LiveError::DecodeFailure),
        },
{
    match field.value {
        FieldValue::Bytes(bytes) => match utf8_text(bytes) {
            Some(text) => {
                proof {
                    encode_utf8_decode_utf8(text@);
                }
                Ok(String::from_str(text))
            },
            None => Err(LiveError::DecodeFailure),
        },
        _ => Err(LiveError::DecodeFailure),
    }
}

fn field_nested<'a>(field: &Field<'a>) -> (r: Result<Vec<Field<'a>>, LiveError>)
    ensures
        match nested_in(field@) {
            Some(inner) => r is Ok && field_views(r->Ok_0@) == inner,
            None => r == Err::<Vec<Field<'a>>, LiveError>(LiveError::DecodeFailure),
        },
{
    match field.value {
        FieldValue::Bytes(bytes) => read_fields(bytes),
        _ => Err(LiveError::DecodeFailure),
    }
}

/// Merges the fields of a fan badge into the level and score so far.
fn merge_medal(level: i64, score: i64, fields: &Vec<Field>) -> (r: Result<(i64, i64), LiveError>)
    ensures
        match medal_merged((level, score), field_views(fields@)) {
            Some(medal) => r == Ok::<(i64, i64), LiveError>(medal),
            None => r == Err::<(i64, i64), LiveError>(LiveError::DecodeFailure),
        },
{
    let ghost views = field_views(fields@);
    let mut acc = (level, score);
    let mut i: usize = 0;
    assert(views.skip(0) =~= views);
    while i < fields.len()
        invariant
            i <= fields.len(),
            views == field_views(fields@),
            medal_merged((level, score), views) == medal_merged(acc, views.skip(i as int)),
        decreases fields.len() - i,
    {
        let field = &fields[i];
        proof {
            assert(views.skip(i as int).drop_first() =~= views.skip(i + 1));
            assert(views.skip(i as int).first() == field@);
        }
        if field.tag == FIELD_MEDAL_LEVEL {
            acc = (to_signed(field_number(field)?), acc.1);
        } else if field.tag == FIELD_MEDAL_SCORE {
            acc = (acc.0, to_signed(field_number(field)?));
        }
        i += 1;
    }
    Ok(acc)
}

/// Merges the fields of the base data into the avatar so far.
fn merge_face(face: String, fields: &Vec<Field>) -> (r: Result<String, LiveError>)
    ensures
        match face_merged(face@, field_views(fields@)) {
            Some(merged) => r is Ok && r->Ok_0@ == merged,
            None => r == Err::<String, LiveError>(LiveError::DecodeFailure),
        },
{
    let ghost views = field_views(fields@);
    let ghost start = face@;
    let mut acc = face;
    let mut i: usize = 0;
    assert(views.skip(0) =~= views);
    while i < fields.len()
        invariant
            i <= fields.len(),
            views == field_views(fields@),
            start == face@,
            face_merged(start, views) == face_merged(acc@, views.skip(i as int)),
        decreases fields.len() - i,
    {
        let field = &fields[i];
        proof {
            assert(views.skip(i as int).drop_first() =~= views.skip(i + 1));
            assert(views.skip(i as int).first() == field@);
        }
        if field.tag == FIELD_BASE_FACE {
            acc = field_text(field)?;
        }
        i += 1;
    }
    Ok(acc)
}

/// Merges the fields of the wealth data into the level so far.
fn merge_wealth(level: i64, fields: &Vec<Field>) -> (r: Result<i64, LiveError>)
    ensures
        match wealth_merged(level, field_views(fields@)) {
            Some(merged) => r == Ok::<i64, LiveError>(merged),
            None => r == Err::<i64, LiveError>(LiveError::DecodeFailure),
        },
{
    let ghost views = field_views(fields@);
    let mut acc = level;
    let mut i: usize = 0;
    assert(views.skip(0) =~= views);
    while i < fields.len()
        invariant
            i <= fields.len(),
            views == field_views(fields@),
            wealth_merged(level, views) == wealth_merged(acc, views.skip(i as int)),
        decreases fields.len() - i,
    {
        let field = &fields[i];
        proof {
            assert(views.skip(i as int).drop_first() =~= views.skip(i + 1));
            assert(views.skip(i as int).first() == field@);
        }
        if field.tag == FIELD_WEALTH_LEVEL {
            acc = to_signed(field_number(field)?);
        }
        i += 1;
    }
    Ok(acc)
}

/// Merges the fields of the user details into the avatar and wealth level
/// so far.
fn merge_detail(face: Option<String>, wealth: Option<i64>, fields: &Vec<Field>) -> (r: Result<
    (Option<String>, Option<i64>),
    LiveError,
>)
    ensures
        match detail_merged((text_of(face), wealth), field_views(fields@)) {
            Some(merged) => r is Ok && text_of(r->Ok_0.0) == merged.0 && r->Ok_0.1 == merged.1,
            None => r == Err::<(Option<String>, Option<i64>), LiveError>(
                LiveError::DecodeFailure,
            ),
        },
{
    let ghost views = field_views(fields@);
    let ghost start = (text_of(face), wealth);
    let mut avatar = face;
    let mut level = wealth;
    let mut i: usize = 0;
    assert(views.skip(0) =~= views);
    while i < fields.len()
        invariant
            i <= fields.len(),
            views == field_views(fields@),
            start == (text_of(face), wealth),
            detail_merged(start, views) == detail_merged(
                (text_of(avatar), level),
                views.skip(i as int),
            ),
        decreases fields.len() - i,
    {
        let field = &fields[i];
        proof {
            assert(views.skip(i as int).drop_first() =~= views.skip(i + 1));
            assert(views.skip(i as int).first() == field@);
        }
        if field.tag == FIELD_UINFO_BASE {
            let inner = field_nested(field)?;
            let current = match avatar {
                Some(text) => text,
                None => String::new(),
            };
            avatar = Some(merge_face(current, &inner)?);
        } else if field.tag == FIELD_UINFO_WEALTH {
            let inner = field_nested(field)?;
            let current = match level {
                Some(known) => known,
                None => 0,
            };
            level = Some(merge_wealth(current, &inner)?);
        }
        i += 1;
    }
    Ok((avatar, level))
}

impl InteractPayload {
    /// Decodes the message that a buffer spells.
    pub fn from_bytes(bytes: &[u8]) -> (r: Result<Self, LiveError>)
        ensures
            view_of_payload(r) == payload_decoded(bytes@),
            r is Err ==> r == Err::<Self, LiveError>(LiveError::DecodeFailure),
    {
        let fields = read_fields(bytes)?;
        let ghost views = field_views(fields@);
        let mut acc = InteractPayload {
            uid: 0,
            uname: String::new(),
            msg_type: 0,
            timestamp: 0,
            face: None,
            medal_level: None,
            medal_score: None,
            wealth_level: None,
        };
        assert(acc@ == empty_payload());
        let mut i: usize = 0;
        assert(views.skip(0) =~= views);
        while i < fields.len()
            invariant
                i <= fields.len(),
                views == field_views(fields@),
                payload_decoded(bytes@) == payload_merged(acc@, views.skip(i as int)),
            decreases fields.len() - i,
        {
            let field = &fields[i];
            proof {
                assert(views.skip(i as int).drop_first() =~= views.skip(i + 1));
                assert(views.skip(i as int).first() == field@);
            }
            if field.tag == FIELD_UID {
                acc.uid = field_number(field)?;
            } else if field.tag == FIELD_UNAME {
                acc.uname = field_text(field)?;
            } else if field.tag == FIELD_MSG_TYPE {
                acc.msg_type = field_number(field)?;
            } else if field.tag == FIELD_TIMESTAMP {
                acc.timestamp = field_number(field)?;
            } else if field.tag == FIELD_FANS_MEDAL {
                let inner = field_nested(field)?;
                let level = match acc.medal_level {
                    Some(level) => level,
                    None => 0,
                };
                let score = match acc.medal_score {
                    Some(score) => score,
                    None => 0,
                };
                let medal = merge_medal(level, score, &inner)?;
                acc.medal_level = Some(medal.0);
                acc.medal_score = Some(medal.1);
            } else if field.tag == FIELD_UINFO {
                let inner = field_nested(field)?;
                let InteractPayload {
                    uid,
                    uname,
                    msg_type,
                    timestamp,
                    face,
                    medal_level,
                    medal_score,
                    wealth_level,
                } = acc;
                let detail = merge_detail(face, wealth_level, &inner)?;
                acc = InteractPayload {
                    uid,
                    uname,
                    msg_type,
                    timestamp,
                    face: detail.0,
                    medal_level,
                    medal_score,
                    wealth_level: detail.1,
                };
            }
            i += 1;
        }
        Ok(acc)
    }

    /// Decodes the message that a base64 text carries.
    pub fn decode(base64_text: &str) -> (r: Result<Self, LiveError>)
        ensures
            view_of_payload(r) == match base64_decoded(base64_text@) {
                Some(bytes) => payload_decoded(bytes),
                None => None,
            },
            r is Err ==> r == Err::<Self, LiveError>(LiveError::DecodeFailure),
    {
        match base64_decode(base64_text) {
            Ok(bytes) => Self::from_bytes(bytes.as_slice()),
            Err(_) => Err(LiveError::DecodeFailure),
        }
    }
}

} // verus!
