use vstd::prelude::*;
use vstd::string::*;
use bech32::{FromBase32, ToBase32};
use crate::chars::str_equals;
use crate::decimal::{
    all_digits, decimal, digit_char, digit_str, digit_value, digits_value, fit_u64, is_digit, lemma_decimal,
    lemma_digit_char, parse_digits, parse_u64, parse_u8, spec_parse_u64, spec_parse_u8,
    u64_to_decimal,
};
use crate::error::Error;
use crate::kinds::{
    array_from_seq, Block0Date, ConsensusVersion, Discrimination, LeaderId,
    Milli, PUBLIC_KEY_SIZE,
};

verus! {

/// The bech32 text of some bytes under a human-readable prefix.
pub uninterp spec fn bech32_text(hrp: Seq<char>, data: Seq<u8>) -> Seq<char>;

/// What bech32 decoding of a text gives: its prefix in lower case and its
/// data as whole bytes, or nothing.
pub uninterp spec fn bech32_parse(s: Seq<char>) -> Option<(Seq<char>, Seq<u8>)>;

/// A prefix that bech32 encoding accepts: 1 to 83 characters, lower-case
/// letters, digits and underscores.
pub open spec fn valid_hrp(hrp: Seq<char>) -> bool {
    1 <= hrp.len() <= 83 && forall|i: int|
        0 <= i < hrp.len() ==> {
            let c = #[trigger] hrp[i];
            ('a' <= c && c <= 'z') || ('0' <= c && c <= '9') || c == '_'
        }
}

/// Relies on `bech32::encode` (with `ToBase32` on the bytes). It fails only on
/// an invalid prefix, which `requires` leaves out; `bech32::decode` of its
/// output gives back the lower-case prefix and the data, `FromBase32` being
/// the reciprocal of `ToBase32`.
#[verifier::external_body]
fn bech32_encode(hrp: &str, data: &[u8]) -> (r: String)
    requires
        valid_hrp(hrp@),
    ensures
        r@ == bech32_text(hrp@, data@),
        bech32_parse(r@) == Some((hrp@, data@)),
{
    bech32::encode(hrp, data.to_base32()).unwrap_or_default()
}

/// Relies on `bech32::decode`, then `FromBase32` for `Vec<u8>`: the prefix in
/// lower case and the data as bytes, when both succeed.
#[verifier::external_body]
fn bech32_decode(s: &str) -> (r: Option<(String, Vec<u8>)>)
    ensures
        r is None <==> bech32_parse(s@) is None,
        r matches Some(p) ==> bech32_parse(s@) == Some((p.0@, p.1@)),
{
    match bech32::decode(s) {
        Ok((hrp, data)) => match Vec::<u8>::from_base32(&data) {
            Ok(bytes) => Some((hrp, bytes)),
            Err(_) => None,
        },
        Err(_) => None,
    }
}

/// The prefix of the text form of an Ed25519 public key.
pub open spec fn key_hrp() -> Seq<char> {
    "ed25519_pk"@
}

/// The fraction of a thousandths count as three digits.
pub open spec fn three_digits(f: nat) -> Seq<char> {
    seq![digit_char(f / 100), digit_char((f / 10) % 10), digit_char(f % 10)]
}

/// The text of a fixed-point number: whole part, a dot, three decimals.
pub open spec fn milli_text(n: u64) -> Seq<char> {
    decimal((n / 1000) as nat) + seq!['.'] + three_digits((n % 1000) as nat)
}

/// What a fraction of `len` digits is worth in thousandths per unit.
pub open spec fn frac_scale(len: int) -> nat {
    if len == 1 {
        100
    } else if len == 2 {
        10
    } else {
        1
    }
}

/// `s` is a whole part, a dot at `k`, and one to three decimals.
pub open spec fn is_milli_split(s: Seq<char>, k: int) -> bool {
    &&& 0 < k < s.len()
    &&& s[k] == '.'
    &&& all_digits(s.take(k))
    &&& 1 <= s.len() - k - 1 <= 3
    &&& all_digits(s.skip(k + 1))
}

/// The thousandths that a fixed-point text spells: digits, optionally
/// followed by a dot and one to three decimals.
pub open spec fn spec_milli_value(s: Seq<char>) -> Option<nat> {
    if s.len() > 0 && all_digits(s) {
        Some(digits_value(s) * 1000)
    } else if exists|k: int| is_milli_split(s, k) {
        let k = choose|k: int| is_milli_split(s, k);
        Some(digits_value(s.take(k)) * 1000 + digits_value(s.skip(k + 1)) * frac_scale(
            s.len() - k - 1,
        ))
    } else {
        None
    }
}

/// Where the first non-digit stands, it is the only place a dot can split.
proof fn lemma_split_unique(s: Seq<char>, k: int)
    requires
        0 <= k < s.len(),
        all_digits(s.take(k)),
        !is_digit(s[k]),
    ensures
        forall|j: int| #[trigger] is_milli_split(s, j) ==> j == k,
{
    assert forall|j: int| #[trigger] is_milli_split(s, j) implies j == k by {
        if j < k {
            assert(s.take(k)[j] == s[j]);
        } else if j > k {
            assert(s.take(j)[k] == s[k]);
        }
    }
}

/// Three digits spell the fraction they were made from.
proof fn lemma_three_digits(f: nat)
    requires
        f < 1000,
    ensures
        three_digits(f).len() == 3,
        all_digits(three_digits(f)),
        digits_value(three_digits(f)) == f,
{
    let t = three_digits(f);
    lemma_digit_char(f / 100);
    lemma_digit_char((f / 10) % 10);
    lemma_digit_char(f % 10);
    let t1 = t.drop_last();
    let t2 = t1.drop_last();
    assert(t2.drop_last() =~= Seq::<char>::empty());
    assert(t2 =~= seq![digit_char(f / 100)]);
    assert(digits_value(t2) == digits_value(t2.drop_last()) * 10 + digit_value(t2.last()));
    assert(digits_value(t2) == f / 100);
    assert(t1.last() == digit_char((f / 10) % 10));
    assert(digits_value(t1) == (f / 100) * 10 + (f / 10) % 10);
    assert(((f / 100) * 10 + (f / 10) % 10) * 10 + f % 10 == f) by (nonlinear_arith)
        requires
            f < 1000,
    ;
}

impl Block0Date {
    pub fn to_cfg_string(&self) -> (r: String)
        ensures
            r@ == decimal(self.0 as nat),
    {
        u64_to_decimal(self.0)
    }

    pub fn from_cfg_str(s: &str) -> (r: Result<Block0Date, Error>)
        ensures
            r is Err <==> spec_parse_u64(s@) is None,
            r matches Ok(d) ==> spec_parse_u64(s@) == Some(d.0),
            r matches Err(e) ==> e matches Error::UnknownString(m) && m@ == s@,
    {
        match u64_from_cfg_str(s) {
            Ok(n) => Ok(Block0Date(n)),
            Err(e) => Err(e),
        }
    }
}

/// The decimal text of a 64-bit integer.
pub fn u64_to_cfg_string(n: u64) -> (r: String)
    ensures
        r@ == decimal(n as nat),
{
    u64_to_decimal(n)
}

/// A 64-bit integer from its decimal text; anything else is `UnknownString`.
pub fn u64_from_cfg_str(s: &str) -> (r: Result<u64, Error>)
    ensures
        r is Err <==> spec_parse_u64(s@) is None,
        r matches Ok(n) ==> spec_parse_u64(s@) == Some(n),
        r matches Err(e) ==> e matches Error::UnknownString(m) && m@ == s@,
{
    match parse_u64(s) {
        Some(n) => Ok(n),
        None => Err(Error::UnknownString(s.to_owned())),
    }
}

/// The decimal text of a byte.
pub fn u8_to_cfg_string(n: u8) -> (r: String)
    ensures
        r@ == decimal(n as nat),
{
    u64_to_decimal(n as u64)
}

/// A byte from its decimal text; anything else is `UnknownString`.
pub fn u8_from_cfg_str(s: &str) -> (r: Result<u8, Error>)
    ensures
        r is Err <==> spec_parse_u8(s@) is None,
        r matches Ok(n) ==> spec_parse_u8(s@) == Some(n),
        r matches Err(e) ==> e matches Error::UnknownString(m) && m@ == s@,
{
    match parse_u8(s) {
        Some(n) => Ok(n),
        None => Err(Error::UnknownString(s.to_owned())),
    }
}

impl Discrimination {
    pub open spec fn spec_cfg_string(self) -> Seq<char> {
        match self {
            Discrimination::Production => "production"@,
            Discrimination::Test => "test"@,
        }
    }

    pub open spec fn spec_from_cfg(s: Seq<char>) -> Option<Discrimination> {
        if s == "production"@ {
            Some(Discrimination::Production)
        } else if s == "test"@ {
            Some(Discrimination::Test)
        } else {
            None
        }
    }

    pub fn to_cfg_string(&self) -> (r: String)
        ensures
            r@ == self.spec_cfg_string(),
    {
        match self {
            Discrimination::Production => "production".to_owned(),
            Discrimination::Test => "test".to_owned(),
        }
    }

    pub fn from_cfg_str(s: &str) -> (r: Result<Discrimination, Error>)
        ensures
            r is Err <==> Discrimination::spec_from_cfg(s@) is None,
            r matches Ok(d) ==> Discrimination::spec_from_cfg(s@) == Some(d),
            r matches Err(e) ==> e matches Error::UnknownString(m) && m@ == s@,
    {
        if str_equals(s, "production") {
            Ok(Discrimination::Production)
        } else if str_equals(s, "test") {
            Ok(Discrimination::Test)
        } else {
            Err(Error::UnknownString(s.to_owned()))
        }
    }
}

impl ConsensusVersion {
    pub open spec fn spec_cfg_string(self) -> Seq<char> {
        match self {
            ConsensusVersion::Bft => "bft"@,
            ConsensusVersion::GenesisPraos => "genesis"@,
        }
    }

    pub open spec fn spec_from_cfg(s: Seq<char>) -> Option<ConsensusVersion> {
        if s == "bft"@ {
            Some(ConsensusVersion::Bft)
        } else if s == "genesis"@ {
            Some(ConsensusVersion::GenesisPraos)
        } else {
            None
        }
    }

    pub fn to_cfg_string(&self) -> (r: String)
        ensures
            r@ == self.spec_cfg_string(),
    {
        match self {
            ConsensusVersion::Bft => "bft".to_owned(),
            ConsensusVersion::GenesisPraos => "genesis".to_owned(),
        }
    }

    pub fn from_cfg_str(s: &str) -> (r: Result<ConsensusVersion, Error>)
        ensures
            r is Err <==> ConsensusVersion::spec_from_cfg(s@) is None,
            r matches Ok(d) ==> ConsensusVersion::spec_from_cfg(s@) == Some(d),
            r matches Err(e) ==> e matches Error::UnknownString(m) && m@ == s@,
    {
        if str_equals(s, "bft") {
            Ok(ConsensusVersion::Bft)
        } else if str_equals(s, "genesis") {
            Ok(ConsensusVersion::GenesisPraos)
        } else {
            Err(Error::UnknownString(s.to_owned()))
        }
    }
}

impl LeaderId {
    /// The key from its bech32 text, if the prefix is the key prefix and the
    /// data is 32 bytes.
    pub open spec fn spec_from_cfg(s: Seq<char>) -> Option<LeaderId> {
        match bech32_parse(s) {
            Some(p) => if p.0 == key_hrp() && p.1.len() == PUBLIC_KEY_SIZE {
                Some(LeaderId(array_from_seq(p.1)))
            } else {
                None
            },
            None => None,
        }
    }

    /// The bech32 text of the key under the prefix `ed25519_pk`.
    pub fn to_cfg_string(&self) -> (r: String)
        ensures
            r@ == bech32_text(key_hrp(), self.0@),
            bech32_parse(r@) == Some((key_hrp(), self.0@)),
    {
        let hrp = "ed25519_pk";
        proof {
            reveal_strlit("ed25519_pk");
        }
        assert(valid_hrp(hrp@));
        let bytes = self.to_payload();
        bech32_encode(hrp, bytes.as_slice())
    }

    pub fn from_cfg_str(s: &str) -> (r: Result<LeaderId, Error>)
        ensures
            r is Err <==> LeaderId::spec_from_cfg(s@) is None,
            r matches Ok(d) ==> LeaderId::spec_from_cfg(s@) == Some(d),
            r matches Err(e) ==> e matches Error::UnknownString(m) && m@ == s@,
    {
        match bech32_decode(s) {
            Some((hrp, data)) => {
                if str_equals(hrp.as_str(), "ed25519_pk") {
                    match LeaderId::from_payload(data.as_slice()) {
                        Ok(k) => Ok(k),
                        Err(_) => Err(Error::UnknownString(s.to_owned())),
                    }
                } else {
                    Err(Error::UnknownString(s.to_owned()))
                }
            },
            None => Err(Error::UnknownString(s.to_owned())),
        }
    }
}

impl Milli {
    pub fn to_cfg_string(&self) -> (r: String)
        ensures
            r@ == milli_text(self.0),
    {
        let n = self.0;
        let f = n % 1000;
        let mut s = u64_to_decimal(n / 1000);
        s.append(".");
        s.append(digit_str(f / 100));
        s.append(digit_str((f / 10) % 10));
        s.append(digit_str(f % 10));
        proof {
            reveal_strlit(".");
        }
        assert(s@ =~= milli_text(n));
        s
    }

    pub fn from_cfg_str(s: &str) -> (r: Result<Milli, Error>)
        ensures
            r is Err <==> fit_u64(spec_milli_value(s@)) is None,
            r matches Ok(m) ==> fit_u64(spec_milli_value(s@)) == Some(m.0),
            r matches Err(e) ==> e matches Error::UnknownString(m) && m@ == s@,
    {
        match parse_milli(s) {
            Some(n) => Ok(Milli::from_millis(n)),
            None => Err(Error::UnknownString(s.to_owned())),
        }
    }
}

/// The thousandths that a fixed-point text spells, if they fit in 64 bits.
fn parse_milli(s: &str) -> (r: Option<u64>)
    ensures
        r == fit_u64(spec_milli_value(s@)),
{
    let n = s.unicode_len();
    let mut k: usize = 0;
    while k < n
        invariant
            k <= n,
            n == s@.len(),
            all_digits(s@.take(k as int)),
        ensures
            k <= n,
            all_digits(s@.take(k as int)),
            k < n ==> !is_digit(s@[k as int]),
        decreases n - k,
    {
        let c = s.get_char(k);
        if !((c as u32) >= 48 && (c as u32) <= 57) {
            break;
        }
        assert(s@.take(k as int + 1) =~= s@.take(k as int).push(c));
        k = k + 1;
    }
    if k == n {
        assert(s@.take(n as int) =~= s@);
        assert(s@.subrange(0, n as int) =~= s@);
        return match parse_digits(s, 0, n) {
            Some(v) => v.checked_mul(1000),
            None => None,
        };
    }
    let c = s.get_char(k);
    proof {
        assert(!is_digit(s@[k as int]));
        assert(!all_digits(s@));
        lemma_split_unique(s@, k as int);
    }
    if c != '.' || k == 0 || n - k - 1 < 1 || n - k - 1 > 3 {
        return None;
    }
    assert(s@.subrange(0, k as int) =~= s@.take(k as int));
    assert(s@.subrange(k + 1, n as int) =~= s@.skip(k + 1));
    let whole = parse_digits(s, 0, k);
    let frac = parse_digits(s, k + 1, n);
    match frac {
        None => {
            return None;
        },
        Some(_) => {},
    }
    assert(is_milli_split(s@, k as int));
    let fv = frac.unwrap();
    let len = n - k - 1;
    let scale: u64 = if len == 1 {
        100
    } else if len == 2 {
        10
    } else {
        1
    };
    assert(fv * scale < 1000) by (nonlinear_arith)
        requires
            fv == digits_value(s@.skip(k + 1)),
            scale == frac_scale(len as int),
            1 <= len <= 3,
            s@.skip(k + 1).len() == len,
            all_digits(s@.skip(k + 1)),
    {
        lemma_frac_bound(s@.skip(k + 1));
    }
    match whole {
        Some(w) => match w.checked_mul(1000) {
            Some(m) => m.checked_add(fv * scale),
            None => None,
        },
        None => None,
    }
}

/// A run of `len` digits is worth less than `10^len`, so its fraction is
/// below one unit.
proof fn lemma_frac_bound(t: Seq<char>)
    requires
        1 <= t.len() <= 3,
        all_digits(t),
    ensures
        digits_value(t) * frac_scale(t.len() as int) < 1000,
{
    lemma_digits_lt(t);
    reveal_with_fuel(pow10, 4);
}

pub open spec fn pow10(n: nat) -> nat
    decreases n,
{
    if n == 0 {
        1
    } else {
        10 * pow10((n - 1) as nat)
    }
}

/// A run of `n` digits spells a number below `10^n`.
proof fn lemma_digits_lt(t: Seq<char>)
    requires
        all_digits(t),
    ensures
        digits_value(t) < pow10(t.len()),
    decreases t.len(),
{
    if t.len() > 0 {
        let u = t.drop_last();
        assert(all_digits(u)) by {
            assert forall|i: int| 0 <= i < u.len() implies is_digit(#[trigger] u[i]) by {
                assert(u[i] == t[i]);
            }
        }
        lemma_digits_lt(u);
        assert(is_digit(t[t.len() - 1]));
        assert(digits_value(t) <= (pow10(u.len()) - 1) * 10 + 9) by (nonlinear_arith)
            requires
                digits_value(t) == digits_value(u) * 10 + digit_value(t.last()),
                digits_value(u) < pow10(u.len()),
                digit_value(t.last()) <= 9,
        ;
    }
}

/// The text of a fixed-point number spells that number.
pub proof fn lemma_milli_text(n: u64)
    ensures
        spec_milli_value(milli_text(n)) == Some(n as nat),
{
    let s = milli_text(n);
    let w = (n / 1000) as nat;
    let f = (n % 1000) as nat;
    let d = decimal(w);
    let k = d.len() as int;
    lemma_decimal(w);
    lemma_three_digits(f);
    assert(s.take(k) =~= d);
    assert(s.skip(k + 1) =~= three_digits(f));
    assert(s[k] == '.');
    assert(!is_digit(s[k]));
    assert(is_milli_split(s, k));
    lemma_split_unique(s, k);
    assert(w * 1000 + f == n);
}

} // verus!
