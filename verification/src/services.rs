//! Value resolution, address handling and recipient generation.

use crate::sums::{
    lemma_element_le_sum, lemma_sat_sum_take_step, lemma_share_bounds, lemma_sum_take_le,
    lemma_sum_take_step, spec_sat_sum, spec_share, spec_sum,
};
use crate::types::{Address, AddressError, RecipientError};
use secp256k1::rand::SeedableRng;
use vstd::arithmetic::div_mod::{
    lemma_fundamental_div_mod, lemma_fundamental_div_mod_converse, lemma_mod_bound,
};
use vstd::prelude::*;
use vstd::string::*;

verus! {

/// Seed for the deterministic destination-address generator. Acceptable only
/// for a test-harness ledger; a production generator must not be reproducible.
pub const ADDRESS_GENERATOR_SEED: u64 = 12345;

/// True of the sixteen characters that a hexadecimal digit may be.
pub open spec fn is_hex_digit(c: char) -> bool {
    ('0' <= c && c <= '9') || ('a' <= c && c <= 'f') || ('A' <= c && c <= 'F')
}

/// True of the characters that lowercase hexadecimal encoding produces.
pub open spec fn is_lower_hex_digit(c: char) -> bool {
    ('0' <= c && c <= '9') || ('a' <= c && c <= 'f')
}

/// Numeric value of a hexadecimal digit.
pub open spec fn hex_val(c: char) -> int {
    if '0' <= c && c <= '9' {
        c as u32 - '0' as u32
    } else if 'a' <= c && c <= 'f' {
        c as u32 - 'a' as u32 + 10
    } else if 'A' <= c && c <= 'F' {
        c as u32 - 'A' as u32 + 10
    } else {
        0
    }
}

/// The lowercase hexadecimal digit for a value below sixteen.
pub open spec fn hex_lower_char(n: int) -> char {
    if n == 0 {
        '0'
    } else if n == 1 {
        '1'
    } else if n == 2 {
        '2'
    } else if n == 3 {
        '3'
    } else if n == 4 {
        '4'
    } else if n == 5 {
        '5'
    } else if n == 6 {
        '6'
    } else if n == 7 {
        '7'
    } else if n == 8 {
        '8'
    } else if n == 9 {
        '9'
    } else if n == 10 {
        'a'
    } else if n == 11 {
        'b'
    } else if n == 12 {
        'c'
    } else if n == 13 {
        'd'
    } else if n == 14 {
        'e'
    } else {
        'f'
    }
}

/// A string that hexadecimal decoding accepts: even length, digits only.
pub open spec fn is_hex_string(s: Seq<char>) -> bool {
    s.len() % 2 == 0 && forall|i: int| 0 <= i < s.len() ==> is_hex_digit(#[trigger] s[i])
}

/// The byte that position `i` of a decoded hexadecimal string holds.
pub open spec fn hex_byte(s: Seq<char>, i: int) -> int {
    16 * hex_val(s[2 * i]) + hex_val(s[2 * i + 1])
}

/// What the Keccak-256 digest of a byte sequence is. The digest is a function
/// of the bytes alone; its value is stated nowhere and only the external
/// hasher computes it.
pub uninterp spec fn keccak_of(b: Seq<u8>) -> Seq<u8>;

/// Relies on hex::decode: accepts exactly the even-length strings of
/// hexadecimal digits (either case) and returns one byte per digit pair,
/// high digit first.
#[verifier::external_body]
fn hex_decode(s: &str) -> (r: Option<Vec<u8>>)
    ensures
        r is Some <==> is_hex_string(s@),
        r is Some ==> r->Some_0@.len() == s@.len() / 2,
        r is Some ==> forall|i: int|
            0 <= i < r->Some_0@.len() ==> #[trigger] r->Some_0@[i] as int == hex_byte(s@, i),
{
    match hex::decode(s) {
        Ok(v) => Some(v),
        Err(_) => None,
    }
}

/// Relies on hex::encode: two lowercase hexadecimal digits per input byte,
/// high digit first.
#[verifier::external_body]
fn hex_encode(b: &Vec<u8>) -> (r: String)
    ensures
        r@.len() == 2 * b@.len(),
        forall|i: int|
            0 <= i < b@.len() ==> #[trigger] r@[2 * i] == hex_lower_char(b@[i] as int / 16)
                && r@[2 * i + 1] == hex_lower_char(b@[i] as int % 16),
{
    hex::encode(b.as_slice())
}

/// Relies on ethers_core::utils::keccak256: the 32-byte Keccak-256 digest,
/// a function of the input bytes alone.
#[verifier::external_body]
fn keccak256_digest(b: &Vec<u8>) -> (r: Vec<u8>)
    ensures
        r@ == keccak_of(b@),
        r@.len() == 32,
{
    ethers_core::utils::keccak256(b.as_slice()).to_vec()
}

/// Relies on secp256k1's Secp256k1::generate_keypair (with a seeded StdRng)
/// and PublicKey::serialize_uncompressed: the uncompressed SEC1 form of a
/// public key is 65 bytes.
#[verifier::external_body]
fn generate_public_key_bytes(seed: u64) -> (r: Vec<u8>)
    ensures
        r@.len() == 65,
{
    let secp = secp256k1::Secp256k1::new();
    let mut rng = secp256k1::rand::rngs::StdRng::seed_from_u64(seed);
    let (_secret_key, public_key) = secp.generate_keypair(&mut rng);
    public_key.serialize_uncompressed().to_vec()
}

/// The exact percentage share: `floor(total * v / 100)`, computed without
/// widening past the integer width and without overflow.
fn share_of(total: u128, v: u128) -> (r: u128)
    requires
        v <= 100,
    ensures
        r as int == spec_share(total, v),
        r <= total,
{
    let q = total / 100;
    let rem = total % 100;
    proof {
        lemma_share_bounds(total, v);
        lemma_fundamental_div_mod(total as int, 100);
        assert(total * v == 100 * (q * v) + rem * v) by (nonlinear_arith)
            requires
                total == 100 * q + rem,
        ;
        assert(q * v <= total) by (nonlinear_arith)
            requires
                100 * q + rem == total && rem >= 0 && q >= 0 && v <= 100,
        ;
        assert(rem * v <= 9900) by (nonlinear_arith)
            requires
                rem <= 99 && v <= 100 && rem >= 0 && v >= 0,
        ;
        lemma_fundamental_div_mod(rem * v, 100);
        lemma_mod_bound(rem * v, 100);
        lemma_fundamental_div_mod_converse(
            total * v,
            100,
            q * v + (rem * v) / 100,
            (rem * v) % 100,
        );
    }
    let low = (rem * v) / 100;
    q * v + low
}

/// Resolves a list of percentage shares against a total.
///
/// Exactly the lists whose shares sum to 100 resolve; each resolved amount is
/// `floor(total_amount * share / 100)`, in the order given. Any other list is
/// refused with a bad-request status and an unchanged message.
pub fn calculate_amounts_from_percentages(percentages: &Vec<u128>, total_amount: u128) -> (r: (
    u16,
    Result<Vec<u128>, String>,
))
    ensures
        r.1 is Ok <==> spec_sum(percentages@) == 100,
        r.1 matches Ok(amounts) ==> r.0 == 200 && amounts@.len() == percentages@.len() && forall|
            i: int,
        |
            0 <= i < amounts@.len() ==> #[trigger] amounts@[i] as int == spec_share(
                total_amount,
                percentages@[i],
            ),
        r.1 matches Err(m) ==> r.0 == 400 && m@ == "Sum of percentages must be 100"@,
{
    let ghost values = percentages@;
    let mut sum: u128 = 0;
    let mut i: usize = 0;
    while i < percentages.len()
        invariant
            i <= values.len(),
            values == percentages@,
            sum as int == spec_sum(values.take(i as int)),
        decreases values.len() - i,
    {
        let v = percentages[i];
        proof {
            lemma_sum_take_step(values, i as int);
        }
        if v > u128::MAX - sum {
            proof {
                lemma_sum_take_le(values, i as int + 1);
            }
            return (400, Err("Sum of percentages must be 100".to_owned()));
        }
        sum = sum + v;
        i = i + 1;
    }
    proof {
        assert(values.take(values.len() as int) =~= values);
    }
    if sum != 100 {
        return (400, Err("Sum of percentages must be 100".to_owned()));
    }
    let mut amounts: Vec<u128> = Vec::new();
    i = 0;
    while i < percentages.len()
        invariant
            i <= values.len(),
            values == percentages@,
            spec_sum(values) == 100,
            amounts@.len() == i,
            forall|j: int|
                0 <= j < i ==> #[trigger] amounts@[j] as int == spec_share(
                    total_amount,
                    values[j],
                ),
        decreases values.len() - i,
    {
        let v = percentages[i];
        proof {
            lemma_element_le_sum(values, i as int);
        }
        let a = share_of(total_amount, v);
        amounts.push(a);
        i = i + 1;
    }
    (200, Ok(amounts))
}

/// The saturating sum of a list of amounts: clamps at the integer ceiling
/// instead of wrapping.
pub fn saturating_sum(amounts: &Vec<u128>) -> (r: u128)
    ensures
        r as int == spec_sat_sum(amounts@),
{
    let ghost values = amounts@;
    let mut sum: u128 = 0;
    let mut i: usize = 0;
    while i < amounts.len()
        invariant
            i <= values.len(),
            values == amounts@,
            sum as int == spec_sat_sum(values.take(i as int)),
        decreases values.len() - i,
    {
        proof {
            lemma_sat_sum_take_step(values, i as int);
        }
        sum = sum.saturating_add(amounts[i]);
        i = i + 1;
    }
    proof {
        assert(values.take(values.len() as int) =~= values);
    }
    sum
}

/// Strips every leading "0x" marker, as the original textual form allows.
pub open spec fn spec_trim_hex_prefix(s: Seq<char>) -> Seq<char>
    decreases s.len(),
{
    if s.len() >= 2 && s[0] == '0' && s[1] == 'x' {
        spec_trim_hex_prefix(s.skip(2))
    } else {
        s
    }
}

/// Turns a textual ledger address ("0x" followed by 40 hexadecimal digits)
/// into its 20 bytes.
///
/// Exactly the strings that, once "0x" markers are stripped, are valid
/// hexadecimal of 40 digits are accepted; anything else names which of the
/// two checks failed.
pub fn get_solidity_address(s: &str) -> (r: Result<Address, AddressError>)
    ensures
        r is Ok <==> (is_hex_string(spec_trim_hex_prefix(s@)) && spec_trim_hex_prefix(s@).len()
            == 40),
        r matches Ok(a) ==> a@.len() == 20 && forall|i: int|
            0 <= i < 20 ==> #[trigger] a@[i] as int == hex_byte(spec_trim_hex_prefix(s@), i),
        r matches Err(e) ==> (e == AddressError::InvalidHex <==> !is_hex_string(
            spec_trim_hex_prefix(s@),
        )),
{
    let mut t: &str = s;
    let mut len = t.unicode_len();
    while len >= 2 && t.get_char(0) == '0' && t.get_char(1) == 'x'
        invariant
            len == t@.len(),
            spec_trim_hex_prefix(t@) == spec_trim_hex_prefix(s@),
        decreases t@.len(),
    {
        t = t.substring_char(2, len);
        len = len - 2;
    }
    match hex_decode(t) {
        None => Err(AddressError::InvalidHex),
        Some(bytes) => {
            if bytes.len() != 20 {
                Err(AddressError::WrongLength)
            } else {
                Ok(Address { bytes })
            }
        },
    }
}

/// True of the textual addresses this library produces: "0x" followed by 40
/// lowercase hexadecimal digits.
pub open spec fn is_eth_address_string(s: Seq<char>) -> bool {
    s.len() == 42 && s[0] == '0' && s[1] == 'x' && forall|i: int|
        2 <= i < 42 ==> is_lower_hex_digit(#[trigger] s[i])
}

/// Derives one textual destination address: the lowercase hexadecimal form of
/// the last 20 bytes of the Keccak-256 digest of the generated public key
/// (its format byte skipped), behind a "0x" marker.
fn generate_ethereum_address() -> (r: String)
    ensures
        is_eth_address_string(r@),
{
    let public_key = generate_public_key_bytes(ADDRESS_GENERATOR_SEED);
    let mut body: Vec<u8> = Vec::new();
    let mut i: usize = 1;
    while i < 65
        invariant
            1 <= i <= 65,
            public_key@.len() == 65,
            body@ == public_key@.subrange(1, i as int),
        decreases 65 - i,
    {
        body.push(public_key[i]);
        i = i + 1;
    }
    let digest = keccak256_digest(&body);
    let mut tail: Vec<u8> = Vec::new();
    i = 12;
    while i < 32
        invariant
            12 <= i <= 32,
            digest@.len() == 32,
            tail@ == digest@.subrange(12, i as int),
        decreases 32 - i,
    {
        tail.push(digest[i]);
        i = i + 1;
    }
    let encoded = hex_encode(&tail);
    let mut out = String::from_str("0x");
    proof {
        reveal_strlit("0x");
    }
    out.append(encoded.as_str());
    proof {
        assert forall|j: int| 2 <= j < 42 implies is_lower_hex_digit(out@[j]) by {
            let k = (j - 2) / 2;
            assert(encoded@[2 * k] == hex_lower_char(tail@[k] as int / 16));
            assert(encoded@[2 * k + 1] == hex_lower_char(tail@[k] as int % 16));
            lemma_hex_lower_char_is_digit(tail@[k] as int / 16);
            lemma_hex_lower_char_is_digit(tail@[k] as int % 16);
            assert(j - 2 == 2 * k || j - 2 == 2 * k + 1);
        }
    }
    out
}

/// The lowercase encoding of a value below sixteen is a lowercase
/// hexadecimal digit.
proof fn lemma_hex_lower_char_is_digit(n: int)
    requires
        0 <= n < 16,
    ensures
        is_lower_hex_digit(hex_lower_char(n)),
{
}

/// Produces `amount` destination addresses, in a stable order, each in the
/// textual form `is_eth_address_string` describes. Generation never falls
/// short of the requested count.
pub fn generate_addresses(amount: u8) -> (r: Result<Vec<String>, RecipientError>)
    ensures
        r is Ok,
        r matches Ok(accounts) ==> accounts@.len() == amount && forall|i: int|
            0 <= i < accounts@.len() ==> is_eth_address_string(#[trigger] accounts@[i]@),
{
    let mut accounts: Vec<String> = Vec::new();
    let mut i: u8 = 0;
    while i < amount
        invariant
            i <= amount,
            accounts@.len() == i,
            forall|j: int|
                0 <= j < accounts@.len() ==> is_eth_address_string(#[trigger] accounts@[j]@),
        decreases amount - i,
    {
        let address = generate_ethereum_address();
        accounts.push(address);
        i = i + 1;
    }
    Ok(accounts)
}

} // verus!
