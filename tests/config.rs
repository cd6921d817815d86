use chain_config::payload::{u64_from_payload, u64_to_payload, u8_from_payload};
use chain_config::text::{u64_from_cfg_str, u64_to_cfg_string, u8_from_cfg_str};
use chain_config::{
    Block0Date, ConfigParam, ConsensusVersion, Discrimination, Error, LeaderId, Milli, ReadError,
    Tag, TagLen, MAXIMUM_LEN,
};

const ALL_TAGS: [Tag; 8] = [
    Tag::Block0Date,
    Tag::Discrimination,
    Tag::ConsensusVersion,
    Tag::SlotsPerEpoch,
    Tag::SlotDuration,
    Tag::ConsensusLeaderCert,
    Tag::ConsensusGenesisPraosParamD,
    Tag::ConsensusGenesisPraosParamF,
];

fn sample_key() -> LeaderId {
    let mut key = [0u8; 32];
    for (i, b) in key.iter_mut().enumerate() {
        *b = (i as u8) * 7 + 3;
    }
    LeaderId(key)
}

fn samples() -> Vec<ConfigParam> {
    vec![
        ConfigParam::Block0Date(Block0Date(0)),
        ConfigParam::Block0Date(Block0Date(1_550_822_014)),
        ConfigParam::Block0Date(Block0Date(u64::MAX)),
        ConfigParam::Discrimination(Discrimination::Production),
        ConfigParam::Discrimination(Discrimination::Test),
        ConfigParam::ConsensusVersion(ConsensusVersion::Bft),
        ConfigParam::ConsensusVersion(ConsensusVersion::GenesisPraos),
        ConfigParam::SlotsPerEpoch(21600),
        ConfigParam::SlotsPerEpoch(u64::MAX),
        ConfigParam::SlotDuration(0),
        ConfigParam::SlotDuration(255),
        ConfigParam::ConsensusLeaderCert(sample_key()),
        ConfigParam::ConsensusGenesisPraosParamD(Milli::from_millis(0)),
        ConfigParam::ConsensusGenesisPraosParamD(Milli::from_millis(1500)),
        ConfigParam::ConsensusGenesisPraosParamF(Milli::from_millis(u64::MAX)),
        ConfigParam::ConsensusGenesisPraosParamF(Milli::from_millis(7)),
    ]
}

fn encode(p: &ConfigParam) -> Vec<u8> {
    let mut out = Vec::new();
    p.serialize(&mut out);
    out
}

#[test]
fn tag_len_computation_correct() {
    for tag in ALL_TAGS.iter() {
        for len in 0..MAXIMUM_LEN {
            let tag_len = TagLen::new(*tag, len).unwrap();
            assert_eq!(Ok(*tag), tag_len.get_tag(), "Invalid tag");
            assert_eq!(len, tag_len.get_len(), "Invalid len");
        }
    }
}

#[test]
fn frame_word_layout() {
    assert_eq!(TagLen::new(Tag::Discrimination, 1), Some(TagLen(0x0081)));
    assert_eq!(TagLen::new(Tag::SlotsPerEpoch, 8), Some(TagLen(0x0108)));
    assert_eq!(TagLen::new(Tag::ConsensusGenesisPraosParamF, 63), Some(TagLen((8 << 6) | 63)));
}

#[test]
fn length_ceiling() {
    for tag in ALL_TAGS.iter() {
        assert_eq!(TagLen::new(*tag, 64), None);
        assert_eq!(TagLen::new(*tag, 65), None);
        assert_eq!(TagLen::new(*tag, usize::MAX), None);
        assert!(TagLen::new(*tag, 63).is_some());
    }
}

#[test]
fn tags_are_stable_and_distinct() {
    let numbers: Vec<u16> = ALL_TAGS.iter().map(|t| t.number()).collect();
    assert_eq!(numbers, vec![1, 2, 3, 4, 5, 6, 7, 8]);
    let names: Vec<&str> = ALL_TAGS.iter().map(|t| t.name()).collect();
    assert_eq!(
        names,
        vec![
            "block0-date",
            "discrimination",
            "block0-consensus",
            "slots-per-epoch",
            "slot-duration",
            "block0-consensus-leader",
            "genesis-praos-param-d",
            "genesis-praos-param-f",
        ]
    );
    for t in ALL_TAGS.iter() {
        assert_eq!(Tag::from_u16(t.number()), Some(*t));
        assert_eq!(Tag::from_name(t.name()), Ok(*t));
        for u in ALL_TAGS.iter() {
            if t != u {
                assert_ne!(t.number(), u.number());
                assert_ne!(t.name(), u.name());
            }
        }
    }
    assert_eq!(Tag::from_u16(0), None);
    assert_eq!(Tag::from_u16(9), None);
    assert_eq!(Tag::from_name("Discrimination"), Err(Error::UnknownString("Discrimination".to_string())));
}

#[test]
fn malformed_payloads_are_rejected() {
    assert_eq!(Discrimination::from_payload(&[3]), Err(Error::StructureInvalid));
    assert_eq!(Discrimination::from_payload(&[]), Err(Error::SizeInvalid));
    assert_eq!(Discrimination::from_payload(&[1, 1]), Err(Error::SizeInvalid));
    assert_eq!(Block0Date::from_payload(&[0; 7]), Err(Error::SizeInvalid));
    assert_eq!(Block0Date::from_payload(&[0; 9]), Err(Error::SizeInvalid));
    assert_eq!(ConsensusVersion::from_payload(&[0, 3]), Err(Error::StructureInvalid));
    assert_eq!(ConsensusVersion::from_payload(&[0, 0]), Err(Error::StructureInvalid));
    assert_eq!(ConsensusVersion::from_payload(&[1]), Err(Error::SizeInvalid));
    assert_eq!(LeaderId::from_payload(&[0; 31]), Err(Error::SizeInvalid));
    assert_eq!(Milli::from_payload(&[0; 3]), Err(Error::SizeInvalid));
    assert_eq!(u8_from_payload(&[1, 2]), Err(Error::SizeInvalid));
}

#[test]
fn unregistered_tag_is_invalid() {
    let word: u16 = (9 << 6) | 1;
    let buf = [(word >> 8) as u8, word as u8, 0x01];
    assert_eq!(ConfigParam::read(&buf), Err(ReadError::Invalid(Error::InvalidTag)));
    let zero: [u8; 2] = [0, 0];
    assert_eq!(ConfigParam::read(&zero), Err(ReadError::Invalid(Error::InvalidTag)));
}

#[test]
fn short_buffers_underrun() {
    assert_eq!(ConfigParam::read(&[]), Err(ReadError::NotEnoughBytes(0, 2)));
    assert_eq!(ConfigParam::read(&[0x01]), Err(ReadError::NotEnoughBytes(1, 2)));
    assert_eq!(
        ConfigParam::read(&[0x01, 0x08, 0, 0, 0]),
        Err(ReadError::NotEnoughBytes(3, 8))
    );
}

#[test]
fn payload_errors_surface_through_read() {
    assert_eq!(
        ConfigParam::read(&[0x00, 0x81, 0x03]),
        Err(ReadError::Invalid(Error::StructureInvalid))
    );
    assert_eq!(
        ConfigParam::read(&[0x00, 0x47, 0, 0, 0, 0, 0, 0, 1]),
        Err(ReadError::Invalid(Error::SizeInvalid))
    );
}

#[test]
fn discrimination_test_example() {
    let p = ConfigParam::Discrimination(Discrimination::Test);
    let bytes = encode(&p);
    assert_eq!(bytes, vec![0x00, 0x81, 0x02]);
    assert_eq!(ConfigParam::read(&bytes), Ok((p, 3)));
}

#[test]
fn discrimination_text_example() {
    let from_text = ConfigParam::from_cfg_pair("discrimination", "test").unwrap();
    let (from_binary, _) = ConfigParam::read(&[0x00, 0x81, 0x02]).unwrap();
    assert_eq!(from_text, from_binary);
    assert_eq!(
        ConfigParam::from_cfg_pair("discrimination", "prod"),
        Err(Error::UnknownString("prod".to_string()))
    );
}

#[test]
fn slots_per_epoch_example() {
    let p = ConfigParam::SlotsPerEpoch(21600);
    assert_eq!(p.payload(), vec![0, 0, 0, 0, 0, 0, 0x54, 0x60]);
    let bytes = encode(&p);
    assert_eq!(bytes, vec![0x01, 0x08, 0, 0, 0, 0, 0, 0, 0x54, 0x60]);
    let frame = TagLen(((bytes[0] as u16) << 8) | bytes[1] as u16);
    assert_eq!(frame.get_tag(), Ok(Tag::SlotsPerEpoch));
    assert_eq!(frame.get_len(), 8);
    assert_eq!(ConfigParam::read(&bytes), Ok((ConfigParam::SlotsPerEpoch(21600), 10)));
}

#[test]
fn binary_round_trip() {
    for p in samples() {
        let mut bytes = encode(&p);
        let n = bytes.len();
        assert_eq!(ConfigParam::read(&bytes), Ok((p.clone(), n)));
        bytes.extend_from_slice(&[0xde, 0xad]);
        assert_eq!(ConfigParam::read(&bytes), Ok((p.clone(), n)));
    }
}

#[test]
fn serialize_appends() {
    let mut out = vec![0xff];
    ConfigParam::SlotDuration(20).serialize(&mut out);
    assert_eq!(out, vec![0xff, 0x01, 0x41, 20]);
    ConfigParam::ConsensusVersion(ConsensusVersion::GenesisPraos).serialize(&mut out);
    assert_eq!(out, vec![0xff, 0x01, 0x41, 20, 0x00, 0xc2, 0x00, 0x02]);
}

#[test]
fn leader_cert_encoding() {
    let p = ConfigParam::ConsensusLeaderCert(sample_key());
    let bytes = encode(&p);
    assert_eq!(bytes.len(), 34);
    assert_eq!(bytes[0..2], [0x01, 0xa0]);
    assert_eq!(bytes[2..], sample_key().0);
}

#[test]
fn text_round_trip() {
    for p in samples() {
        let (name, value) = p.to_cfg_pair();
        assert_eq!(name, p.tag().name());
        assert_eq!(ConfigParam::from_cfg_pair(&name, &value), Ok(p.clone()));
    }
}

#[test]
fn text_values() {
    assert_eq!(ConfigParam::Block0Date(Block0Date(1234)).to_cfg_pair(), ("block0-date".to_string(), "1234".to_string()));
    assert_eq!(ConfigParam::SlotDuration(15).to_cfg_string(), "15");
    assert_eq!(ConfigParam::Discrimination(Discrimination::Production).to_cfg_string(), "production");
    assert_eq!(ConfigParam::ConsensusVersion(ConsensusVersion::Bft).to_cfg_string(), "bft");
    assert_eq!(ConfigParam::ConsensusVersion(ConsensusVersion::GenesisPraos).to_cfg_string(), "genesis");
    assert_eq!(Milli::from_millis(1500).to_cfg_string(), "1.500");
    assert_eq!(Milli::from_millis(7).to_cfg_string(), "0.007");
    assert_eq!(Milli::from_millis(123456).to_cfg_string(), "123.456");
    assert_eq!(u64_to_cfg_string(21600), "21600");
}

#[test]
fn unknown_tag_name_is_invalid_tag() {
    assert_eq!(ConfigParam::from_cfg_pair("slots_per_epoch", "10"), Err(Error::InvalidTag));
    assert_eq!(ConfigParam::from_cfg_pair("", ""), Err(Error::InvalidTag));
}

#[test]
fn integer_text_parsing() {
    assert_eq!(u64_from_cfg_str("21600"), Ok(21600));
    assert_eq!(u64_from_cfg_str("+5"), Ok(5));
    assert_eq!(u64_from_cfg_str("007"), Ok(7));
    assert_eq!(u64_from_cfg_str("18446744073709551615"), Ok(u64::MAX));
    assert_eq!(u64_from_cfg_str("18446744073709551616"), Err(Error::UnknownString("18446744073709551616".to_string())));
    assert_eq!(u64_from_cfg_str("-5"), Err(Error::UnknownString("-5".to_string())));
    assert_eq!(u64_from_cfg_str(""), Err(Error::UnknownString("".to_string())));
    assert_eq!(u64_from_cfg_str("+"), Err(Error::UnknownString("+".to_string())));
    assert_eq!(u64_from_cfg_str(" 1"), Err(Error::UnknownString(" 1".to_string())));
    assert_eq!(u8_from_cfg_str("255"), Ok(255));
    assert_eq!(u8_from_cfg_str("256"), Err(Error::UnknownString("256".to_string())));
    assert_eq!(ConfigParam::from_cfg_pair("slot-duration", "300"), Err(Error::UnknownString("300".to_string())));
}

#[test]
fn milli_text_parsing() {
    assert_eq!(Milli::from_cfg_str("1.5"), Ok(Milli(1500)));
    assert_eq!(Milli::from_cfg_str("1.50"), Ok(Milli(1500)));
    assert_eq!(Milli::from_cfg_str("0.001"), Ok(Milli(1)));
    assert_eq!(Milli::from_cfg_str("12"), Ok(Milli(12000)));
    assert_eq!(Milli::from_cfg_str("18446744073709551.615"), Ok(Milli(u64::MAX)));
    for bad in ["1.2345", ".5", "1.", "", "1,5", "1.a", "a", "18446744073709551.616", "18446744073709552"].iter() {
        assert_eq!(Milli::from_cfg_str(bad), Err(Error::UnknownString(bad.to_string())));
    }
}

#[test]
fn leader_key_text() {
    let key = sample_key();
    let text = key.to_cfg_string();
    assert!(text.starts_with("ed25519_pk1"));
    assert_ne!(text.as_bytes(), &key.0[..]);
    assert_eq!(LeaderId::from_cfg_str(&text), Ok(key));
    let bad = "not a key";
    assert_eq!(LeaderId::from_cfg_str(bad), Err(Error::UnknownString(bad.to_string())));
    let mut other = text.clone();
    other.pop();
    other.push(if text.ends_with('q') { 'p' } else { 'q' });
    assert_eq!(LeaderId::from_cfg_str(&other), Err(Error::UnknownString(other.clone())));
}

#[test]
fn leader_key_text_needs_key_prefix() {
    let short = bech32::encode("ed25519_pk", bech32::ToBase32::to_base32(&[1u8; 31])).unwrap();
    assert_eq!(LeaderId::from_cfg_str(&short), Err(Error::UnknownString(short.clone())));
    let other_prefix = bech32::encode("ed25519_sk", bech32::ToBase32::to_base32(&[1u8; 32])).unwrap();
    assert_eq!(LeaderId::from_cfg_str(&other_prefix), Err(Error::UnknownString(other_prefix.clone())));
    let good = bech32::encode("ed25519_pk", bech32::ToBase32::to_base32(&[1u8; 32])).unwrap();
    assert_eq!(LeaderId::from_cfg_str(&good), Ok(LeaderId([1u8; 32])));
}

#[test]
fn payload_integers() {
    assert_eq!(u64_to_payload(0x0102030405060708), vec![1, 2, 3, 4, 5, 6, 7, 8]);
    assert_eq!(u64_from_payload(&[1, 2, 3, 4, 5, 6, 7, 8]), Ok(0x0102030405060708));
    assert_eq!(Block0Date(1).to_payload(), vec![0, 0, 0, 0, 0, 0, 0, 1]);
    assert_eq!(ConsensusVersion::Bft.to_payload(), vec![0, 1]);
    assert_eq!(Discrimination::Production.to_payload(), vec![1]);
}

#[test]
fn error_messages() {
    assert_eq!(Error::InvalidTag.message(), "Invalid config parameter tag");
    assert_eq!(Error::SizeInvalid.message(), "Invalid config parameter size");
    assert_eq!(Error::StructureInvalid.message(), "Invalid config parameter structure");
    assert_eq!(Error::UnknownString("x".to_string()).message(), "Invalid config parameter string 'x'");
}
