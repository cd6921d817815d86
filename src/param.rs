use vstd::prelude::*;
use vstd::slice::slice_subrange;
use crate::error::{Error, ReadError};
use crate::kinds::{Block0Date, ConsensusVersion, Discrimination, LeaderId, Milli};
use crate::payload::{
    lemma_u16_be_round_trip, lemma_u64_be_round_trip, spec_u64_from_payload, spec_u8_from_payload,
    u16_be, u16_of_be, u16_to_payload, u64_be, u64_from_payload, u64_to_payload, u8_from_payload,
    u8_to_payload,
};
use crate::tag::{frame_word, lemma_frame_round_trip, Tag, TagLen};

verus! {

/// One configuration parameter: exactly one kind, with its value.
#[derive(Debug, Clone, PartialEq, Eq)]
pub enum ConfigParam {
    Block0Date(Block0Date),
    Discrimination(Discrimination),
    ConsensusVersion(ConsensusVersion),
    SlotsPerEpoch(u64),
    SlotDuration(u8),
    ConsensusLeaderCert(LeaderId),
    ConsensusGenesisPraosParamD(Milli),
    ConsensusGenesisPraosParamF(Milli),
}

impl ConfigParam {
    /// The kind of the parameter.
    pub open spec fn spec_tag(self) -> Tag {
        match self {
            ConfigParam::Block0Date(_) => Tag::Block0Date,
            ConfigParam::Discrimination(_) => Tag::Discrimination,
            ConfigParam::ConsensusVersion(_) => Tag::ConsensusVersion,
            ConfigParam::SlotsPerEpoch(_) => Tag::SlotsPerEpoch,
            ConfigParam::SlotDuration(_) => Tag::SlotDuration,
            ConfigParam::ConsensusLeaderCert(_) => Tag::ConsensusLeaderCert,
            ConfigParam::ConsensusGenesisPraosParamD(_) => Tag::ConsensusGenesisPraosParamD,
            ConfigParam::ConsensusGenesisPraosParamF(_) => Tag::ConsensusGenesisPraosParamF,
        }
    }

    /// The payload bytes of the value.
    pub open spec fn spec_payload(self) -> Seq<u8> {
        match self {
            ConfigParam::Block0Date(d) => d.spec_payload(),
            ConfigParam::Discrimination(d) => d.spec_payload(),
            ConfigParam::ConsensusVersion(d) => d.spec_payload(),
            ConfigParam::SlotsPerEpoch(d) => u64_be(d),
            ConfigParam::SlotDuration(d) => seq![d],
            ConfigParam::ConsensusLeaderCert(d) => d.spec_payload(),
            ConfigParam::ConsensusGenesisPraosParamD(d) => d.spec_payload(),
            ConfigParam::ConsensusGenesisPraosParamF(d) => d.spec_payload(),
        }
    }

    /// The bytes on the wire: the frame word, big-endian, then the payload.
    pub open spec fn spec_encoding(self) -> Seq<u8> {
        u16_be(frame_word(self.spec_tag(), self.spec_payload().len())) + self.spec_payload()
    }

    /// Decoding a payload of a given kind.
    pub open spec fn spec_from_tagged_payload(tag: Tag, p: Seq<u8>) -> Result<ConfigParam, Error> {
        match tag {
            Tag::Block0Date => match Block0Date::spec_from_payload(p) {
                Ok(v) => Ok(ConfigParam::Block0Date(v)),
                Err(e) => Err(e),
            },
            Tag::Discrimination => match Discrimination::spec_from_payload(p) {
                Ok(v) => Ok(ConfigParam::Discrimination(v)),
                Err(e) => Err(e),
            },
            Tag::ConsensusVersion => match ConsensusVersion::spec_from_payload(p) {
                Ok(v) => Ok(ConfigParam::ConsensusVersion(v)),
                Err(e) => Err(e),
            },
            Tag::SlotsPerEpoch => match spec_u64_from_payload(p) {
                Ok(v) => Ok(ConfigParam::SlotsPerEpoch(v)),
                Err(e) => Err(e),
            },
            Tag::SlotDuration => match spec_u8_from_payload(p) {
                Ok(v) => Ok(ConfigParam::SlotDuration(v)),
                Err(e) => Err(e),
            },
            Tag::ConsensusLeaderCert => match LeaderId::spec_from_payload(p) {
                Ok(v) => Ok(ConfigParam::ConsensusLeaderCert(v)),
                Err(e) => Err(e),
            },
            Tag::ConsensusGenesisPraosParamD => match Milli::spec_from_payload(p) {
                Ok(v) => Ok(ConfigParam::ConsensusGenesisPraosParamD(v)),
                Err(e) => Err(e),
            },
            Tag::ConsensusGenesisPraosParamF => match Milli::spec_from_payload(p) {
                Ok(v) => Ok(ConfigParam::ConsensusGenesisPraosParamF(v)),
                Err(e) => Err(e),
            },
        }
    }

    /// Reading one parameter from the front of `buf`: the parameter and the
    /// number of bytes it took, or why it could not be read.
    pub open spec fn spec_read(buf: Seq<u8>) -> Result<(ConfigParam, usize), ReadError> {
        if buf.len() < 2 {
            Err(ReadError::NotEnoughBytes(buf.len() as usize, 2))
        } else {
            let w = u16_of_be(buf.take(2));
            let len = w % 64;
            if buf.len() < 2 + len {
                Err(ReadError::NotEnoughBytes((buf.len() - 2) as usize, len as usize))
            } else {
                match Tag::spec_from_number((w / 64) as u16) {
                    None => Err(ReadError::Invalid(Error::InvalidTag)),
                    Some(t) => match ConfigParam::spec_from_tagged_payload(
                        t,
                        buf.subrange(2, 2 + len),
                    ) {
                        Ok(v) => Ok((v, (2 + len) as usize)),
                        Err(e) => Err(ReadError::Invalid(e)),
                    },
                }
            }
        }
    }

    /// The kind of the parameter.
    pub fn tag(&self) -> (r: Tag)
        ensures
            r == self.spec_tag(),
    {
        match self {
            ConfigParam::Block0Date(_) => Tag::Block0Date,
            ConfigParam::Discrimination(_) => Tag::Discrimination,
            ConfigParam::ConsensusVersion(_) => Tag::ConsensusVersion,
            ConfigParam::SlotsPerEpoch(_) => Tag::SlotsPerEpoch,
            ConfigParam::SlotDuration(_) => Tag::SlotDuration,
            ConfigParam::ConsensusLeaderCert(_) => Tag::ConsensusLeaderCert,
            ConfigParam::ConsensusGenesisPraosParamD(_) => Tag::ConsensusGenesisPraosParamD,
            ConfigParam::ConsensusGenesisPraosParamF(_) => Tag::ConsensusGenesisPraosParamF,
        }
    }

    /// The payload bytes of the value; never 64 bytes or more.
    pub fn payload(&self) -> (r: Vec<u8>)
        ensures
            r@ == self.spec_payload(),
            r@.len() < 64,
    {
        match self {
            ConfigParam::Block0Date(d) => d.to_payload(),
            ConfigParam::Discrimination(d) => d.to_payload(),
            ConfigParam::ConsensusVersion(d) => d.to_payload(),
            ConfigParam::SlotsPerEpoch(d) => u64_to_payload(*d),
            ConfigParam::SlotDuration(d) => u8_to_payload(*d),
            ConfigParam::ConsensusLeaderCert(d) => d.to_payload(),
            ConfigParam::ConsensusGenesisPraosParamD(d) => d.to_payload(),
            ConfigParam::ConsensusGenesisPraosParamF(d) => d.to_payload(),
        }
    }

    /// Appends the frame word and the payload to `out`.
    pub fn serialize(&self, out: &mut Vec<u8>)
        ensures
            final(out)@ == old(out)@ + self.spec_encoding(),
    {
        let tag = self.tag();
        let mut bytes = self.payload();
        let frame = TagLen::new(tag, bytes.len());
        match frame {
            Some(f) => {
                let mut word = u16_to_payload(f.0);
                out.append(&mut word);
                out.append(&mut bytes);
            },
            None => {},
        }
        assert(out@ =~= old(out)@ + self.spec_encoding());
    }

    /// Decodes a payload of the given kind.
    pub fn from_tagged_payload(tag: Tag, p: &[u8]) -> (r: Result<ConfigParam, Error>)
        ensures
            r == ConfigParam::spec_from_tagged_payload(tag, p@),
    {
        match tag {
            Tag::Block0Date => match Block0Date::from_payload(p) {
                Ok(v) => Ok(ConfigParam::Block0Date(v)),
                Err(e) => Err(e),
            },
            Tag::Discrimination => match Discrimination::from_payload(p) {
                Ok(v) => Ok(ConfigParam::Discrimination(v)),
                Err(e) => Err(e),
            },
            Tag::ConsensusVersion => match ConsensusVersion::from_payload(p) {
                Ok(v) => Ok(ConfigParam::ConsensusVersion(v)),
                Err(e) => Err(e),
            },
            Tag::SlotsPerEpoch => match u64_from_payload(p) {
                Ok(v) => Ok(ConfigParam::SlotsPerEpoch(v)),
                Err(e) => Err(e),
            },
            Tag::SlotDuration => match u8_from_payload(p) {
                Ok(v) => Ok(ConfigParam::SlotDuration(v)),
                Err(e) => Err(e),
            },
            Tag::ConsensusLeaderCert => match LeaderId::from_payload(p) {
                Ok(v) => Ok(ConfigParam::ConsensusLeaderCert(v)),
                Err(e) => Err(e),
            },
            Tag::ConsensusGenesisPraosParamD => match Milli::from_payload(p) {
                Ok(v) => Ok(ConfigParam::ConsensusGenesisPraosParamD(v)),
                Err(e) => Err(e),
            },
            Tag::ConsensusGenesisPraosParamF => match Milli::from_payload(p) {
                Ok(v) => Ok(ConfigParam::ConsensusGenesisPraosParamF(v)),
                Err(e) => Err(e),
            },
        }
    }

    /// Reads one parameter from the front of `buf`; returns it with the
    /// number of bytes it took.
    pub fn read(buf: &[u8]) -> (r: Result<(ConfigParam, usize), ReadError>)
        ensures
            r == ConfigParam::spec_read(buf@),
    {
        let n = buf.len();
        if n < 2 {
            return Err(ReadError::NotEnoughBytes(n, 2));
        }
        let hi = buf[0] as u16;
        let lo = buf[1] as u16;
        let frame = TagLen(hi * 256 + lo);
        assert(frame.0 == u16_of_be(buf@.take(2)));
        let len = frame.get_len();
        if n - 2 < len {
            return Err(ReadError::NotEnoughBytes(n - 2, len));
        }
        let bytes = slice_subrange(buf, 2, 2 + len);
        match frame.get_tag() {
            Err(e) => Err(ReadError::from(e)),
            Ok(t) => match ConfigParam::from_tagged_payload(t, bytes) {
                Ok(v) => Ok((v, 2 + len)),
                Err(e) => Err(ReadError::from(e)),
            },
        }
    }
}

/// Decoding the encoding of any parameter gives back that parameter, and it
/// takes exactly the bytes of the encoding.
pub proof fn lemma_binary_round_trip(v: ConfigParam, rest: Seq<u8>)
    ensures
        ConfigParam::spec_read(v.spec_encoding() + rest) == Ok::<(ConfigParam, usize), ReadError>(
            (v, v.spec_encoding().len() as usize),
        ),
{
    let p = v.spec_payload();
    let t = v.spec_tag();
    let buf = v.spec_encoding() + rest;
    match v {
        ConfigParam::Block0Date(d) => lemma_u64_be_round_trip(d.0),
        ConfigParam::SlotsPerEpoch(d) => lemma_u64_be_round_trip(d),
        ConfigParam::ConsensusGenesisPraosParamD(d) => lemma_u64_be_round_trip(d.0),
        ConfigParam::ConsensusGenesisPraosParamF(d) => lemma_u64_be_round_trip(d.0),
        ConfigParam::ConsensusVersion(d) => lemma_u16_be_round_trip(d.spec_ordinal()),
        ConfigParam::ConsensusLeaderCert(d) => crate::kinds::lemma_array_from_seq(d.0, d.0@),
        _ => {},
    }
    assert(p.len() < 64);
    lemma_frame_round_trip(t, p.len());
    let w = frame_word(t, p.len());
    lemma_u16_be_round_trip(w);
    assert(buf.take(2) =~= u16_be(w));
    assert(buf.subrange(2, 2 + p.len() as int) =~= p);
}

} // verus!
