use vstd::prelude::*;
use vstd::string::*;
use crate::decimal::{decimal, fit_u64, lemma_decimal, spec_parse_u64, spec_parse_u8};
use crate::error::Error;
use crate::kinds::{Block0Date, ConsensusVersion, Discrimination, LeaderId, Milli};
use crate::param::ConfigParam;
use crate::tag::{lemma_tag_stable, Tag};
use crate::text::{
    bech32_text, key_hrp, lemma_milli_text, milli_text,
    spec_milli_value, u64_from_cfg_str, u64_to_cfg_string, u8_from_cfg_str, u8_to_cfg_string,
};

verus! {

impl ConfigParam {
    /// The text of the value.
    pub open spec fn spec_cfg_string(self) -> Seq<char> {
        match self {
            ConfigParam::Block0Date(d) => decimal(d.0 as nat),
            ConfigParam::Discrimination(d) => d.spec_cfg_string(),
            ConfigParam::ConsensusVersion(d) => d.spec_cfg_string(),
            ConfigParam::SlotsPerEpoch(d) => decimal(d as nat),
            ConfigParam::SlotDuration(d) => decimal(d as nat),
            ConfigParam::ConsensusLeaderCert(d) => bech32_text(key_hrp(), d.0@),
            ConfigParam::ConsensusGenesisPraosParamD(d) => milli_text(d.0),
            ConfigParam::ConsensusGenesisPraosParamF(d) => milli_text(d.0),
        }
    }

    /// The value of a given kind that a text spells, if any.
    pub open spec fn spec_from_cfg_value(tag: Tag, s: Seq<char>) -> Option<ConfigParam> {
        match tag {
            Tag::Block0Date => match spec_parse_u64(s) {
                Some(n) => Some(ConfigParam::Block0Date(Block0Date(n))),
                None => None,
            },
            Tag::Discrimination => match Discrimination::spec_from_cfg(s) {
                Some(d) => Some(ConfigParam::Discrimination(d)),
                None => None,
            },
            Tag::ConsensusVersion => match ConsensusVersion::spec_from_cfg(s) {
                Some(d) => Some(ConfigParam::ConsensusVersion(d)),
                None => None,
            },
            Tag::SlotsPerEpoch => match spec_parse_u64(s) {
                Some(n) => Some(ConfigParam::SlotsPerEpoch(n)),
                None => None,
            },
            Tag::SlotDuration => match spec_parse_u8(s) {
                Some(n) => Some(ConfigParam::SlotDuration(n)),
                None => None,
            },
            Tag::ConsensusLeaderCert => match LeaderId::spec_from_cfg(s) {
                Some(d) => Some(ConfigParam::ConsensusLeaderCert(d)),
                None => None,
            },
            Tag::ConsensusGenesisPraosParamD => match fit_u64(spec_milli_value(s)) {
                Some(n) => Some(ConfigParam::ConsensusGenesisPraosParamD(Milli(n))),
                None => None,
            },
            Tag::ConsensusGenesisPraosParamF => match fit_u64(spec_milli_value(s)) {
                Some(n) => Some(ConfigParam::ConsensusGenesisPraosParamF(Milli(n))),
                None => None,
            },
        }
    }

    /// The parameter that a (name, value) pair spells, if any.
    pub open spec fn spec_from_cfg_pair(name: Seq<char>, value: Seq<char>) -> Option<ConfigParam> {
        match Tag::spec_from_name(name) {
            Some(t) => ConfigParam::spec_from_cfg_value(t, value),
            None => None,
        }
    }

    /// The text of the value.
    pub fn to_cfg_string(&self) -> (r: String)
        ensures
            r@ == self.spec_cfg_string(),
            ConfigParam::spec_from_cfg_value(self.spec_tag(), r@) == Some(*self),
    {
        proof {
            lemma_text_value_round_trip(*self);
        }
        match self {
            ConfigParam::Block0Date(d) => d.to_cfg_string(),
            ConfigParam::Discrimination(d) => d.to_cfg_string(),
            ConfigParam::ConsensusVersion(d) => d.to_cfg_string(),
            ConfigParam::SlotsPerEpoch(d) => u64_to_cfg_string(*d),
            ConfigParam::SlotDuration(d) => u8_to_cfg_string(*d),
            ConfigParam::ConsensusLeaderCert(d) => {
                let r = d.to_cfg_string();
                proof {
                    crate::kinds::lemma_array_from_seq(d.0, d.0@);
                }
                r
            },
            ConfigParam::ConsensusGenesisPraosParamD(d) => d.to_cfg_string(),
            ConfigParam::ConsensusGenesisPraosParamF(d) => d.to_cfg_string(),
        }
    }

    /// The text record of the parameter: the kind's name and the value's
    /// text. Reading the record back gives the parameter.
    pub fn to_cfg_pair(&self) -> (r: (String, String))
        ensures
            r.0@ == self.spec_tag().spec_name(),
            r.1@ == self.spec_cfg_string(),
            ConfigParam::spec_from_cfg_pair(r.0@, r.1@) == Some(*self),
    {
        proof {
            lemma_tag_stable(self.spec_tag(), self.spec_tag());
        }
        let name = self.tag().name().to_owned();
        let value = self.to_cfg_string();
        (name, value)
    }

    /// Parses the value text of a parameter of a given kind; text that does
    /// not parse is `UnknownString`.
    pub fn from_cfg_value(tag: Tag, s: &str) -> (r: Result<ConfigParam, Error>)
        ensures
            r is Err <==> ConfigParam::spec_from_cfg_value(tag, s@) is None,
            r matches Ok(v) ==> ConfigParam::spec_from_cfg_value(tag, s@) == Some(v),
            r matches Err(e) ==> e matches Error::UnknownString(m) && m@ == s@,
    {
        match tag {
            Tag::Block0Date => match Block0Date::from_cfg_str(s) {
                Ok(v) => Ok(ConfigParam::Block0Date(v)),
                Err(e) => Err(e),
            },
            Tag::Discrimination => match Discrimination::from_cfg_str(s) {
                Ok(v) => Ok(ConfigParam::Discrimination(v)),
                Err(e) => Err(e),
            },
            Tag::ConsensusVersion => match ConsensusVersion::from_cfg_str(s) {
                Ok(v) => Ok(ConfigParam::ConsensusVersion(v)),
                Err(e) => Err(e),
            },
            Tag::SlotsPerEpoch => match u64_from_cfg_str(s) {
                Ok(v) => Ok(ConfigParam::SlotsPerEpoch(v)),
                Err(e) => Err(e),
            },
            Tag::SlotDuration => match u8_from_cfg_str(s) {
                Ok(v) => Ok(ConfigParam::SlotDuration(v)),
                Err(e) => Err(e),
            },
            Tag::ConsensusLeaderCert => match LeaderId::from_cfg_str(s) {
                Ok(v) => Ok(ConfigParam::ConsensusLeaderCert(v)),
                Err(e) => Err(e),
            },
            Tag::ConsensusGenesisPraosParamD => match Milli::from_cfg_str(s) {
                Ok(v) => Ok(ConfigParam::ConsensusGenesisPraosParamD(v)),
                Err(e) => Err(e),
            },
            Tag::ConsensusGenesisPraosParamF => match Milli::from_cfg_str(s) {
                Ok(v) => Ok(ConfigParam::ConsensusGenesisPraosParamF(v)),
                Err(e) => Err(e),
            },
        }
    }

    /// Reads a text record: an unknown name is `InvalidTag`, a value that
    /// does not parse is `UnknownString`.
    pub fn from_cfg_pair(name: &str, value: &str) -> (r: Result<ConfigParam, Error>)
        ensures
            r is Err <==> ConfigParam::spec_from_cfg_pair(name@, value@) is None,
            r matches Ok(v) ==> ConfigParam::spec_from_cfg_pair(name@, value@) == Some(v),
            Tag::spec_from_name(name@) is None ==> r == Err::<ConfigParam, Error>(Error::InvalidTag),
            Tag::spec_from_name(name@) is Some && r is Err ==> (r matches Err(
                Error::UnknownString(m),
            ) && m@ == value@),
    {
        match Tag::from_name(name) {
            Ok(t) => ConfigParam::from_cfg_value(t, value),
            Err(_) => Err(Error::InvalidTag),
        }
    }
}

/// The text record of every parameter but a leader key, its kind's name and
/// its value's text, reads back as that parameter. (A key's text is bech32:
/// that it reads back is stated where it is written, in `to_cfg_pair`.)
pub proof fn lemma_text_value_round_trip(v: ConfigParam)
    ensures
        !(v is ConsensusLeaderCert) ==> ConfigParam::spec_from_cfg_value(
            v.spec_tag(),
            v.spec_cfg_string(),
        ) == Some(v),
        !(v is ConsensusLeaderCert) ==> ConfigParam::spec_from_cfg_pair(
            v.spec_tag().spec_name(),
            v.spec_cfg_string(),
        ) == Some(v),
{
    lemma_tag_stable(v.spec_tag(), v.spec_tag());
    reveal_strlit("production");
    reveal_strlit("test");
    reveal_strlit("bft");
    reveal_strlit("genesis");
    match v {
        ConfigParam::Block0Date(d) => lemma_decimal(d.0 as nat),
        ConfigParam::SlotsPerEpoch(d) => lemma_decimal(d as nat),
        ConfigParam::SlotDuration(d) => lemma_decimal(d as nat),
        ConfigParam::ConsensusGenesisPraosParamD(d) => lemma_milli_text(d.0),
        ConfigParam::ConsensusGenesisPraosParamF(d) => lemma_milli_text(d.0),
        ConfigParam::Discrimination(d) => {
            assert("production"@ != "test"@);
        },
        ConfigParam::ConsensusVersion(d) => {
            assert("bft"@ != "genesis"@);
        },
        _ => {},
    }
}

} // verus!
