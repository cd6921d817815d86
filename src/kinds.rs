use vstd::prelude::*;
use crate::error::Error;
use crate::payload::{
    spec_u64_from_payload, u16_be, u16_of_be, u16_to_payload, u64_be, u64_from_payload,
    u64_to_payload,
};

verus! {

/// Seconds elapsed since 1-Jan-1970 (unix time).
#[derive(Debug, Clone, Copy, PartialEq, Eq, Structural)]
pub struct Block0Date(pub u64);

/// Whether addresses belong to the production network or to a test network.
#[derive(Debug, Clone, Copy, PartialEq, Eq, Structural)]
pub enum Discrimination {
    Production,
    Test,
}

/// The consensus algorithm that leads the chain.
#[derive(Debug, Clone, Copy, PartialEq, Eq, Structural)]
pub enum ConsensusVersion {
    Bft,
    GenesisPraos,
}

/// The size of an Ed25519 public key.
pub const PUBLIC_KEY_SIZE: usize = 32;

/// A leader of the BFT consensus: an Ed25519 public key, as its raw bytes.
#[derive(Debug, Clone, Copy, PartialEq, Eq)]
pub struct LeaderId(pub [u8; 32]);

/// A fixed-point number: a count of thousandths.
#[derive(Debug, Clone, Copy, PartialEq, Eq, Structural)]
pub struct Milli(pub u64);

/// The byte that stands for production addresses.
pub const VAL_PROD: u8 = 1;

/// The byte that stands for test addresses.
pub const VAL_TEST: u8 = 2;

impl Block0Date {
    pub open spec fn spec_payload(self) -> Seq<u8> {
        u64_be(self.0)
    }

    pub open spec fn spec_from_payload(p: Seq<u8>) -> Result<Block0Date, Error> {
        match spec_u64_from_payload(p) {
            Ok(n) => Ok(Block0Date(n)),
            Err(e) => Err(e),
        }
    }

    pub fn to_payload(&self) -> (r: Vec<u8>)
        ensures
            r@ == self.spec_payload(),
    {
        u64_to_payload(self.0)
    }

    pub fn from_payload(p: &[u8]) -> (r: Result<Block0Date, Error>)
        ensures
            r == Block0Date::spec_from_payload(p@),
    {
        match u64_from_payload(p) {
            Ok(n) => Ok(Block0Date(n)),
            Err(e) => Err(e),
        }
    }
}

impl Discrimination {
    pub open spec fn spec_payload(self) -> Seq<u8> {
        match self {
            Discrimination::Production => seq![VAL_PROD],
            Discrimination::Test => seq![VAL_TEST],
        }
    }

    pub open spec fn spec_from_payload(p: Seq<u8>) -> Result<Discrimination, Error> {
        if p.len() != 1 {
            Err(Error::SizeInvalid)
        } else if p[0] == VAL_PROD {
            Ok(Discrimination::Production)
        } else if p[0] == VAL_TEST {
            Ok(Discrimination::Test)
        } else {
            Err(Error::StructureInvalid)
        }
    }

    pub fn to_payload(&self) -> (r: Vec<u8>)
        ensures
            r@ == self.spec_payload(),
    {
        let r = match self {
            Discrimination::Production => vec![VAL_PROD],
            Discrimination::Test => vec![VAL_TEST],
        };
        assert(r@ =~= self.spec_payload());
        r
    }

    pub fn from_payload(p: &[u8]) -> (r: Result<Discrimination, Error>)
        ensures
            r == Discrimination::spec_from_payload(p@),
    {
        if p.len() != 1 {
            return Err(Error::SizeInvalid);
        }
        if p[0] == VAL_PROD {
            Ok(Discrimination::Production)
        } else if p[0] == VAL_TEST {
            Ok(Discrimination::Test)
        } else {
            Err(Error::StructureInvalid)
        }
    }
}

impl ConsensusVersion {
    /// The ordinal of the algorithm on the wire.
    pub open spec fn spec_ordinal(self) -> u16 {
        match self {
            ConsensusVersion::Bft => 1,
            ConsensusVersion::GenesisPraos => 2,
        }
    }

    pub open spec fn spec_from_u16(n: u16) -> Option<ConsensusVersion> {
        if n == 1 {
            Some(ConsensusVersion::Bft)
        } else if n == 2 {
            Some(ConsensusVersion::GenesisPraos)
        } else {
            None
        }
    }

    pub open spec fn spec_payload(self) -> Seq<u8> {
        u16_be(self.spec_ordinal())
    }

    pub open spec fn spec_from_payload(p: Seq<u8>) -> Result<ConsensusVersion, Error> {
        if p.len() != 2 {
            Err(Error::SizeInvalid)
        } else {
            match ConsensusVersion::spec_from_u16(u16_of_be(p)) {
                Some(v) => Ok(v),
                None => Err(Error::StructureInvalid),
            }
        }
    }

    pub fn ordinal(self) -> (r: u16)
        ensures
            r == self.spec_ordinal(),
    {
        match self {
            ConsensusVersion::Bft => 1,
            ConsensusVersion::GenesisPraos => 2,
        }
    }

    pub fn from_u16(n: u16) -> (r: Option<ConsensusVersion>)
        ensures
            r == ConsensusVersion::spec_from_u16(n),
    {
        match n {
            1 => Some(ConsensusVersion::Bft),
            2 => Some(ConsensusVersion::GenesisPraos),
            _ => None,
        }
    }

    pub fn to_payload(&self) -> (r: Vec<u8>)
        ensures
            r@ == self.spec_payload(),
    {
        u16_to_payload(self.ordinal())
    }

    pub fn from_payload(p: &[u8]) -> (r: Result<ConsensusVersion, Error>)
        ensures
            r == ConsensusVersion::spec_from_payload(p@),
    {
        if p.len() != 2 {
            return Err(Error::SizeInvalid);
        }
        let hi = p[0] as u16;
        let lo = p[1] as u16;
        let n: u16 = hi * 256 + lo;
        match ConsensusVersion::from_u16(n) {
            Some(v) => Ok(v),
            None => Err(Error::StructureInvalid),
        }
    }
}

impl LeaderId {
    pub open spec fn spec_payload(self) -> Seq<u8> {
        self.0@
    }

    pub open spec fn spec_from_payload(p: Seq<u8>) -> Result<LeaderId, Error> {
        if p.len() == PUBLIC_KEY_SIZE {
            Ok(LeaderId(array_from_seq(p)))
        } else {
            Err(Error::SizeInvalid)
        }
    }

    /// The raw bytes of the key.
    pub fn to_payload(&self) -> (r: Vec<u8>)
        ensures
            r@ == self.spec_payload(),
    {
        let mut r: Vec<u8> = Vec::new();
        let mut i: usize = 0;
        while i < PUBLIC_KEY_SIZE
            invariant
                i <= PUBLIC_KEY_SIZE,
                r@ =~= self.0@.take(i as int),
            decreases PUBLIC_KEY_SIZE - i,
        {
            r.push(self.0[i]);
            i = i + 1;
        }
        assert(self.0@.take(32) =~= self.0@);
        r
    }

    /// A key of exactly 32 bytes; any other length is `SizeInvalid`.
    pub fn from_payload(p: &[u8]) -> (r: Result<LeaderId, Error>)
        ensures
            r == LeaderId::spec_from_payload(p@),
    {
        if p.len() != PUBLIC_KEY_SIZE {
            return Err(Error::SizeInvalid);
        }
        let mut key = [0u8; 32];
        let mut i: usize = 0;
        while i < PUBLIC_KEY_SIZE
            invariant
                i <= PUBLIC_KEY_SIZE,
                p@.len() == PUBLIC_KEY_SIZE,
                forall|j: int| 0 <= j < i ==> key@[j] == p@[j],
            decreases PUBLIC_KEY_SIZE - i,
        {
            key[i] = p[i];
            i = i + 1;
        }
        assert(key@ =~= p@);
        proof {
            lemma_array_from_seq(key, p@);
        }
        Ok(LeaderId(key))
    }
}

/// The 32-byte array that holds a sequence of 32 bytes.
pub open spec fn array_from_seq(s: Seq<u8>) -> [u8; 32] {
    choose|a: [u8; 32]| a@ == s
}

/// An array is the array of its own bytes.
pub proof fn lemma_array_from_seq(a: [u8; 32], s: Seq<u8>)
    requires
        a@ == s,
    ensures
        array_from_seq(s) == a,
{
    let b = array_from_seq(s);
    assert(b@ == s);
    assert(b@ =~= a@);
}

impl Milli {
    pub open spec fn spec_payload(self) -> Seq<u8> {
        u64_be(self.0)
    }

    pub open spec fn spec_from_payload(p: Seq<u8>) -> Result<Milli, Error> {
        match spec_u64_from_payload(p) {
            Ok(n) => Ok(Milli(n)),
            Err(e) => Err(e),
        }
    }

    pub fn from_millis(n: u64) -> (r: Milli)
        ensures
            r.0 == n,
    {
        Milli(n)
    }

    pub fn into_millis(self) -> (r: u64)
        ensures
            r == self.0,
    {
        self.0
    }

    pub fn to_payload(&self) -> (r: Vec<u8>)
        ensures
            r@ == self.spec_payload(),
    {
        u64_to_payload(self.into_millis())
    }

    pub fn from_payload(p: &[u8]) -> (r: Result<Milli, Error>)
        ensures
            r == Milli::spec_from_payload(p@),
    {
        match u64_from_payload(p) {
            Ok(n) => Ok(Milli::from_millis(n)),
            Err(e) => Err(e),
        }
    }
}

} // verus!
