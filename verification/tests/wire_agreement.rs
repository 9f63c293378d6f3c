use boa::live::interact::InteractPayload;
use prost::bytes::{Buf, BufMut};
use prost::encoding::{
    encode_key, encode_varint, int64, message, skip_field, string, uint64, DecodeContext, WireType,
};
use prost::{DecodeError, Message};

// The interaction message once more, this time driven by prost's own
// decoding loop, to hold the library's decoder against.

#[derive(Debug, Default, Clone, PartialEq)]
struct Medal {
    medal_level: i64,
    score: i64,
}

#[derive(Debug, Default, Clone, PartialEq)]
struct Base {
    face: String,
}

#[derive(Debug, Default, Clone, PartialEq)]
struct Wealth {
    level: i64,
}

#[derive(Debug, Default, Clone, PartialEq)]
struct Detail {
    base: Option<Base>,
    wealth: Option<Wealth>,
}

#[derive(Debug, Default, Clone, PartialEq)]
struct Interact {
    uid: u64,
    uname: String,
    msg_type: u64,
    timestamp: u64,
    fans_medal: Option<Medal>,
    uinfo: Option<Detail>,
}

impl Message for Medal {
    fn encode_raw(&self, _buf: &mut impl BufMut) {}

    fn merge_field(
        &mut self,
        tag: u32,
        wire_type: WireType,
        buf: &mut impl Buf,
        ctx: DecodeContext,
    ) -> Result<(), DecodeError> {
        match tag {
            2 => int64::merge(wire_type, &mut self.medal_level, buf, ctx),
            13 => int64::merge(wire_type, &mut self.score, buf, ctx),
            _ => skip_field(wire_type, tag, buf, ctx),
        }
    }

    fn encoded_len(&self) -> usize {
        0
    }

    fn clear(&mut self) {
        *self = Medal::default();
    }
}

impl Message for Base {
    fn encode_raw(&self, _buf: &mut impl BufMut) {}

    fn merge_field(
        &mut self,
        tag: u32,
        wire_type: WireType,
        buf: &mut impl Buf,
        ctx: DecodeContext,
    ) -> Result<(), DecodeError> {
        match tag {
            2 => string::merge(wire_type, &mut self.face, buf, ctx),
            _ => skip_field(wire_type, tag, buf, ctx),
        }
    }

    fn encoded_len(&self) -> usize {
        0
    }

    fn clear(&mut self) {
        *self = Base::default();
    }
}

impl Message for Wealth {
    fn encode_raw(&self, _buf: &mut impl BufMut) {}

    fn merge_field(
        &mut self,
        tag: u32,
        wire_type: WireType,
        buf: &mut impl Buf,
        ctx: DecodeContext,
    ) -> Result<(), DecodeError> {
        match tag {
            1 => int64::merge(wire_type, &mut self.level, buf, ctx),
            _ => skip_field(wire_type, tag, buf, ctx),
        }
    }

    fn encoded_len(&self) -> usize {
        0
    }

    fn clear(&mut self) {
        *self = Wealth::default();
    }
}

impl Message for Detail {
    fn encode_raw(&self, _buf: &mut impl BufMut) {}

    fn merge_field(
        &mut self,
        tag: u32,
        wire_type: WireType,
        buf: &mut impl Buf,
        ctx: DecodeContext,
    ) -> Result<(), DecodeError> {
        match tag {
            2 => message::merge(wire_type, self.base.get_or_insert_with(Base::default), buf, ctx),
            4 => {
                message::merge(wire_type, self.wealth.get_or_insert_with(Wealth::default), buf, ctx)
            }
            _ => skip_field(wire_type, tag, buf, ctx),
        }
    }

    fn encoded_len(&self) -> usize {
        0
    }

    fn clear(&mut self) {
        *self = Detail::default();
    }
}

impl Message for Interact {
    fn encode_raw(&self, _buf: &mut impl BufMut) {}

    fn merge_field(
        &mut self,
        tag: u32,
        wire_type: WireType,
        buf: &mut impl Buf,
        ctx: DecodeContext,
    ) -> Result<(), DecodeError> {
        match tag {
            1 => uint64::merge(wire_type, &mut self.uid, buf, ctx),
            2 => string::merge(wire_type, &mut self.uname, buf, ctx),
            5 => uint64::merge(wire_type, &mut self.msg_type, buf, ctx),
            7 => uint64::merge(wire_type, &mut self.timestamp, buf, ctx),
            9 => message::merge(
                wire_type,
                self.fans_medal.get_or_insert_with(Medal::default),
                buf,
                ctx,
            ),
            22 => {
                message::merge(wire_type, self.uinfo.get_or_insert_with(Detail::default), buf, ctx)
            }
            _ => skip_field(wire_type, tag, buf, ctx),
        }
    }

    fn encoded_len(&self) -> usize {
        0
    }

    fn clear(&mut self) {
        *self = Interact::default();
    }
}

fn by_prost(bytes: &[u8]) -> Option<InteractPayload> {
    let read = Interact::decode(bytes).ok()?;
    Some(InteractPayload {
        uid: read.uid,
        uname: read.uname,
        msg_type: read.msg_type,
        timestamp: read.timestamp,
        face: read.uinfo.as_ref().and_then(|u| u.base.as_ref()).map(|b| b.face.clone()),
        medal_level: read.fans_medal.as_ref().map(|m| m.medal_level),
        medal_score: read.fans_medal.as_ref().map(|m| m.score),
        wealth_level: read.uinfo.as_ref().and_then(|u| u.wealth.as_ref()).map(|w| w.level),
    })
}

struct Dice(u64);

impl Dice {
    fn next(&mut self) -> u64 {
        self.0 ^= self.0 << 13;
        self.0 ^= self.0 >> 7;
        self.0 ^= self.0 << 17;
        self.0
    }

    fn below(&mut self, bound: u64) -> u64 {
        self.next() % bound
    }

    fn number(&mut self) -> u64 {
        match self.below(5) {
            0 => self.below(4),
            1 => self.below(300),
            2 => self.next() >> 32,
            3 => u64::MAX - self.below(3),
            _ => self.next(),
        }
    }
}

const TAGS: [u32; 12] = [1, 2, 3, 4, 5, 7, 9, 13, 22, 23, 100, 536_870_911];

fn field(dice: &mut Dice, depth: u32, out: &mut Vec<u8>) {
    let tag = TAGS[dice.below(TAGS.len() as u64) as usize];
    match dice.below(9) {
        0 | 1 => {
            encode_key(tag, WireType::Varint, out);
            encode_varint(dice.number(), out);
        }
        2 => {
            let text = ["", "bob", "http://face/b.png", "弹幕", "a\u{0}b"][dice.below(5) as usize];
            encode_key(tag, WireType::LengthDelimited, out);
            encode_varint(text.len() as u64, out);
            out.extend_from_slice(text.as_bytes());
        }
        3 | 4 if depth < 4 => {
            let mut inner = Vec::new();
            for _ in 0..dice.below(4) {
                field(dice, depth + 1, &mut inner);
            }
            encode_key(tag, WireType::LengthDelimited, out);
            encode_varint(inner.len() as u64, out);
            out.extend_from_slice(&inner);
        }
        5 => {
            encode_key(tag, WireType::SixtyFourBit, out);
            out.extend_from_slice(&dice.next().to_le_bytes());
        }
        6 => {
            encode_key(tag, WireType::ThirtyTwoBit, out);
            out.extend_from_slice(&(dice.next() as u32).to_le_bytes());
        }
        7 if depth < 4 => {
            encode_key(tag, WireType::StartGroup, out);
            for _ in 0..dice.below(3) {
                field(dice, depth + 1, out);
            }
            let close = if dice.below(8) == 0 { tag % 7 + 1 } else { tag };
            encode_key(close, WireType::EndGroup, out);
        }
        _ => {
            let len = dice.below(4);
            encode_key(tag, WireType::LengthDelimited, out);
            encode_varint(len + dice.below(2) * dice.below(3), out);
            for _ in 0..len {
                out.push(dice.next() as u8);
            }
        }
    }
}

fn agree(bytes: &[u8]) {
    assert_eq!(InteractPayload::from_bytes(bytes).ok(), by_prost(bytes), "on {:?}", bytes);
}

#[test]
fn decoder_agrees_with_prost_on_built_messages() {
    let mut dice = Dice(0x9e37_79b9_7f4a_7c15);
    let mut accepted = 0;
    for _ in 0..20_000 {
        let mut bytes = Vec::new();
        for _ in 0..dice.below(6) {
            field(&mut dice, 0, &mut bytes);
        }
        if by_prost(&bytes).is_some() {
            accepted += 1;
        }
        agree(&bytes);
    }
    // The comparison is of little worth unless many messages are accepted and
    // many are refused.
    assert!(accepted > 2_000, "accepted {}", accepted);
    assert!(accepted < 18_000, "accepted {}", accepted);
}

#[test]
fn decoder_agrees_with_prost_on_damaged_messages() {
    let mut dice = Dice(0x2545_f491_4f6c_dd1d);
    for _ in 0..20_000 {
        let mut bytes = Vec::new();
        for _ in 0..dice.below(5) {
            field(&mut dice, 0, &mut bytes);
        }
        if !bytes.is_empty() {
            match dice.below(3) {
                0 => {
                    let at = dice.below(bytes.len() as u64) as usize;
                    bytes[at] ^= 1 << dice.below(8);
                }
                1 => {
                    let keep = dice.below(bytes.len() as u64) as usize;
                    bytes.truncate(keep);
                }
                _ => {
                    let at = dice.below(bytes.len() as u64) as usize;
                    bytes.insert(at, dice.next() as u8);
                }
            }
        }
        agree(&bytes);
    }
}

#[test]
fn decoder_agrees_with_prost_on_short_buffers() {
    for a in 0..=255u8 {
        agree(&[a]);
        for b in [0u8, 1, 2, 5, 0x7f, 0x80, 0xff] {
            agree(&[a, b]);
            for c in [0u8, 1, 0x80, 0xff] {
                agree(&[a, b, c]);
                agree(&[a, b, c, 0, 0, 0, 0, 0, 0, 0, 0]);
            }
        }
    }
}
