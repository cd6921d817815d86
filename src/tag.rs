use vstd::prelude::*;
use crate::chars::str_equals;
use crate::error::Error;

verus! {

/// The kinds of configuration parameter. Each has a fixed number on the wire
/// (below 1024, never reused) and a fixed name in the text form.
#[derive(Debug, Clone, Copy, PartialEq, Eq, Structural)]
pub enum Tag {
    Block0Date,
    Discrimination,
    ConsensusVersion,
    SlotsPerEpoch,
    SlotDuration,
    ConsensusLeaderCert,
    ConsensusGenesisPraosParamD,
    ConsensusGenesisPraosParamF,
}

impl Tag {
    /// The number of the kind on the wire.
    pub open spec fn spec_number(self) -> u16 {
        match self {
            Tag::Block0Date => 1,
            Tag::Discrimination => 2,
            Tag::ConsensusVersion => 3,
            Tag::SlotsPerEpoch => 4,
            Tag::SlotDuration => 5,
            Tag::ConsensusLeaderCert => 6,
            Tag::ConsensusGenesisPraosParamD => 7,
            Tag::ConsensusGenesisPraosParamF => 8,
        }
    }

    /// The kind that a wire number stands for, if any.
    pub open spec fn spec_from_number(n: u16) -> Option<Tag> {
        if n == 1 {
            Some(Tag::Block0Date)
        } else if n == 2 {
            Some(Tag::Discrimination)
        } else if n == 3 {
            Some(Tag::ConsensusVersion)
        } else if n == 4 {
            Some(Tag::SlotsPerEpoch)
        } else if n == 5 {
            Some(Tag::SlotDuration)
        } else if n == 6 {
            Some(Tag::ConsensusLeaderCert)
        } else if n == 7 {
            Some(Tag::ConsensusGenesisPraosParamD)
        } else if n == 8 {
            Some(Tag::ConsensusGenesisPraosParamF)
        } else {
            None
        }
    }

    /// The name of the kind in the text form.
    pub open spec fn spec_name(self) -> Seq<char> {
        match self {
            Tag::Block0Date => "block0-date"@,
            Tag::Discrimination => "discrimination"@,
            Tag::ConsensusVersion => "block0-consensus"@,
            Tag::SlotsPerEpoch => "slots-per-epoch"@,
            Tag::SlotDuration => "slot-duration"@,
            Tag::ConsensusLeaderCert => "block0-consensus-leader"@,
            Tag::ConsensusGenesisPraosParamD => "genesis-praos-param-d"@,
            Tag::ConsensusGenesisPraosParamF => "genesis-praos-param-f"@,
        }
    }

    /// The kind that a name stands for, if any (exact, case-sensitive match).
    pub open spec fn spec_from_name(s: Seq<char>) -> Option<Tag> {
        if s == "block0-date"@ {
            Some(Tag::Block0Date)
        } else if s == "discrimination"@ {
            Some(Tag::Discrimination)
        } else if s == "block0-consensus"@ {
            Some(Tag::ConsensusVersion)
        } else if s == "slots-per-epoch"@ {
            Some(Tag::SlotsPerEpoch)
        } else if s == "slot-duration"@ {
            Some(Tag::SlotDuration)
        } else if s == "block0-consensus-leader"@ {
            Some(Tag::ConsensusLeaderCert)
        } else if s == "genesis-praos-param-d"@ {
            Some(Tag::ConsensusGenesisPraosParamD)
        } else if s == "genesis-praos-param-f"@ {
            Some(Tag::ConsensusGenesisPraosParamF)
        } else {
            None
        }
    }

    pub fn number(self) -> (r: u16)
        ensures
            r == self.spec_number(),
    {
        match self {
            Tag::Block0Date => 1,
            Tag::Discrimination => 2,
            Tag::ConsensusVersion => 3,
            Tag::SlotsPerEpoch => 4,
            Tag::SlotDuration => 5,
            Tag::ConsensusLeaderCert => 6,
            Tag::ConsensusGenesisPraosParamD => 7,
            Tag::ConsensusGenesisPraosParamF => 8,
        }
    }

    pub fn from_u16(n: u16) -> (r: Option<Tag>)
        ensures
            r == Tag::spec_from_number(n),
    {
        match n {
            1 => Some(Tag::Block0Date),
            2 => Some(Tag::Discrimination),
            3 => Some(Tag::ConsensusVersion),
            4 => Some(Tag::SlotsPerEpoch),
            5 => Some(Tag::SlotDuration),
            6 => Some(Tag::ConsensusLeaderCert),
            7 => Some(Tag::ConsensusGenesisPraosParamD),
            8 => Some(Tag::ConsensusGenesisPraosParamF),
            _ => None,
        }
    }

    pub fn name(self) -> (r: &'static str)
        ensures
            r@ == self.spec_name(),
    {
        match self {
            Tag::Block0Date => "block0-date",
            Tag::Discrimination => "discrimination",
            Tag::ConsensusVersion => "block0-consensus",
            Tag::SlotsPerEpoch => "slots-per-epoch",
            Tag::SlotDuration => "slot-duration",
            Tag::ConsensusLeaderCert => "block0-consensus-leader",
            Tag::ConsensusGenesisPraosParamD => "genesis-praos-param-d",
            Tag::ConsensusGenesisPraosParamF => "genesis-praos-param-f",
        }
    }

    /// Looks a kind up by its name; an unknown name is returned in the error.
    pub fn from_name(s: &str) -> (r: Result<Tag, Error>)
        ensures
            r matches Ok(t) ==> Tag::spec_from_name(s@) == Some(t),
            r is Err <==> Tag::spec_from_name(s@) is None,
            r matches Err(e) ==> e matches Error::UnknownString(m) && m@ == s@,
    {
        if str_equals(s, "block0-date") {
            Ok(Tag::Block0Date)
        } else if str_equals(s, "discrimination") {
            Ok(Tag::Discrimination)
        } else if str_equals(s, "block0-consensus") {
            Ok(Tag::ConsensusVersion)
        } else if str_equals(s, "slots-per-epoch") {
            Ok(Tag::SlotsPerEpoch)
        } else if str_equals(s, "slot-duration") {
            Ok(Tag::SlotDuration)
        } else if str_equals(s, "block0-consensus-leader") {
            Ok(Tag::ConsensusLeaderCert)
        } else if str_equals(s, "genesis-praos-param-d") {
            Ok(Tag::ConsensusGenesisPraosParamD)
        } else if str_equals(s, "genesis-praos-param-f") {
            Ok(Tag::ConsensusGenesisPraosParamF)
        } else {
            Err(Error::UnknownString(s.to_owned()))
        }
    }
}

proof fn lemma_names_distinct(t: Tag, u: Tag)
    ensures
        t.spec_name() == u.spec_name() ==> t == u,
{
    reveal_strlit("block0-date");
    reveal_strlit("discrimination");
    reveal_strlit("block0-consensus");
    reveal_strlit("slots-per-epoch");
    reveal_strlit("slot-duration");
    reveal_strlit("block0-consensus-leader");
    reveal_strlit("genesis-praos-param-d");
    reveal_strlit("genesis-praos-param-f");
    if t.spec_name() == u.spec_name() && t != u {
        let a = t.spec_name();
        let b = u.spec_name();
        match t {
            Tag::ConsensusGenesisPraosParamD => {
                assert(a[20] != b[20] || a.len() != b.len());
            },
            Tag::ConsensusGenesisPraosParamF => {
                assert(a[20] != b[20] || a.len() != b.len());
            },
            _ => {
                assert(a[0] != b[0] || a[7] != b[7] || a.len() != b.len());
            },
        }
    }
}

/// Every kind has one number and one name, and no two kinds share either:
/// the number and the name each lead back to the kind.
pub proof fn lemma_tag_stable(t: Tag, u: Tag)
    ensures
        1 <= t.spec_number() < 1024,
        Tag::spec_from_number(t.spec_number()) == Some(t),
        Tag::spec_from_name(t.spec_name()) == Some(t),
        t.spec_number() == u.spec_number() ==> t == u,
        t.spec_name() == u.spec_name() ==> t == u,
{
    lemma_names_distinct(t, u);
    lemma_names_distinct(t, Tag::Block0Date);
    lemma_names_distinct(t, Tag::Discrimination);
    lemma_names_distinct(t, Tag::ConsensusVersion);
    lemma_names_distinct(t, Tag::SlotsPerEpoch);
    lemma_names_distinct(t, Tag::SlotDuration);
    lemma_names_distinct(t, Tag::ConsensusLeaderCert);
    lemma_names_distinct(t, Tag::ConsensusGenesisPraosParamD);
    lemma_names_distinct(t, Tag::ConsensusGenesisPraosParamF);
}

/// A frame word: the kind's number in the upper ten bits, the payload length
/// in the lower six.
#[derive(Debug, Clone, Copy, PartialEq, Eq, PartialOrd, Ord)]
pub struct TagLen(pub u16);

/// Payloads are strictly shorter than this many bytes.
pub const MAXIMUM_LEN: usize = 64;

/// The frame word of a kind and a payload length below 64.
pub open spec fn frame_word(tag: Tag, len: nat) -> u16 {
    (tag.spec_number() * 64 + len) as u16
}

impl TagLen {
    /// The frame of a payload of `len` bytes; none when `len` is 64 or more.
    pub fn new(tag: Tag, len: usize) -> (r: Option<TagLen>)
        ensures
            len < MAXIMUM_LEN <==> r is Some,
            r matches Some(f) ==> f.0 == frame_word(tag, len as nat),
    {
        if len < MAXIMUM_LEN {
            let t = tag.number();
            let l = len as u16;
            let w = (t << 6u16) | l;
            assert(w == t * 64 + l) by (bit_vector)
                requires
                    t < 1024,
                    l < 64,
                    w == (t << 6u16) | l,
            ;
            Some(TagLen(w))
        } else {
            None
        }
    }

    /// The payload length: the lower six bits.
    pub fn get_len(self) -> (r: usize)
        ensures
            r == self.0 % 64,
    {
        let w = self.0;
        let l = w & 0x3fu16;
        assert(l == w % 64) by (bit_vector)
            requires
                l == w & 0x3fu16,
        ;
        l as usize
    }

    /// The kind: the upper ten bits, which must be a registered number.
    pub fn get_tag(self) -> (r: Result<Tag, Error>)
        ensures
            Tag::spec_from_number((self.0 / 64) as u16) matches Some(t) ==> r == Ok::<Tag, Error>(t),
            Tag::spec_from_number((self.0 / 64) as u16) is None ==> r == Err::<Tag, Error>(Error::InvalidTag),
    {
        let w = self.0;
        let n = w >> 6u16;
        assert(n == w / 64) by (bit_vector)
            requires
                n == w >> 6u16,
        ;
        match Tag::from_u16(n) {
            Some(t) => Ok(t),
            None => Err(Error::InvalidTag),
        }
    }
}

/// A frame built from a kind and a length below 64 gives back that kind and
/// that length.
pub proof fn lemma_frame_round_trip(tag: Tag, len: nat)
    requires
        len < 64,
    ensures
        frame_word(tag, len) % 64 == len,
        Tag::spec_from_number((frame_word(tag, len) / 64) as u16) == Some(tag),
{
    let n = tag.spec_number() as int;
    assert(n * 64 + len < 65536);
    assert((n * 64 + len) % 64 == len as int) by (nonlinear_arith)
        requires
            0 <= len < 64,
            n >= 0,
    ;
    assert((n * 64 + len) / 64 == n) by (nonlinear_arith)
        requires
            0 <= len < 64,
            n >= 0,
    ;
    lemma_tag_stable(tag, tag);
}

} // verus!
