//! The per-run device identifier: the uppercase-hex SHA-1 digest of a seed
//! made of a random number and the current Unix time. It is regenerated on
//! every run and never persisted.

use vstd::prelude::*;
use crate::textenc::{
    chars_to_string, hex_upper_chars, lemma_hex_upper_len, push_dec_bytes, spec_dec_bytes,
    spec_hex_upper_chars,
};

verus! {

/// The SHA-1 digest of a byte string. Only the hash implementation can
/// compute it; the trusted digest call below names its result.
pub uninterp spec fn sha1_of(bytes: Seq<u8>) -> Seq<u8>;

/// Relies on the sha1 crate through the digest interface: the digest is a
/// function of the input bytes alone and is 20 bytes long.
#[verifier::external_body]
fn sha1_digest(bytes: &Vec<u8>) -> (r: Vec<u8>)
    ensures
        r@ == sha1_of(bytes@),
        r@.len() == 20,
{
    let d = <sha1::Sha1 as sha1::Digest>::digest(bytes.as_slice());
    d.to_vec()
}

/// Relies on rand::random: an arbitrary number; nothing is promised of the
/// value.
#[verifier::external_body]
fn random_u32() -> u32 {
    rand::random::<u32>()
}

/// Relies on chrono::Utc::now: the Unix timestamp, in seconds, at the call;
/// nothing is promised of the value.
#[verifier::external_body]
fn unix_time_secs() -> i64 {
    chrono::Utc::now().timestamp()
}

/// The seed hashed into the identifier: the random number's decimal digits,
/// a separator, and the timestamp's decimal digits.
pub open spec fn spec_seed_bytes(random: u32, epoch_secs: u64) -> Seq<u8> {
    spec_dec_bytes(random as nat) + seq![45u8] + spec_dec_bytes(epoch_secs as nat)
}

/// The identifier derived from one seed: 40 uppercase hex characters of the
/// seed's SHA-1 digest.
pub open spec fn spec_device_id_chars(random: u32, epoch_secs: u64) -> Seq<char> {
    spec_hex_upper_chars(sha1_of(spec_seed_bytes(random, epoch_secs)))
}

/// Derive the device identifier from a seed pair.
pub fn device_id_from_seed(random: u32, epoch_secs: u64) -> (r: String)
    ensures
        r@ == spec_device_id_chars(random, epoch_secs),
        r@.len() == 40,
{
    let mut seed: Vec<u8> = Vec::new();
    push_dec_bytes(random as u64, &mut seed);
    seed.push(45);
    push_dec_bytes(epoch_secs, &mut seed);
    proof {
        assert(seed@ =~= spec_seed_bytes(random, epoch_secs));
    }
    let digest = sha1_digest(&seed);
    let hex = hex_upper_chars(&digest);
    proof {
        lemma_hex_upper_len(digest@);
    }
    chars_to_string(&hex)
}

/// Generate a fresh device identifier from a random number and the current
/// time: 40 uppercase hex characters. Should the clock wrapper ever hand
/// back a negative reading, it is clamped to the epoch before seeding.
pub fn generate_device_id() -> (r: String)
    ensures
        r@.len() == 40,
        exists|random: u32, epoch_secs: u64| r@ == spec_device_id_chars(random, epoch_secs),
{
    let random = random_u32();
    let t = unix_time_secs();
    let epoch_secs: u64 = if t < 0 {
        0
    } else {
        t as u64
    };
    let id = device_id_from_seed(random, epoch_secs);
    proof {
        assert(id@ == spec_device_id_chars(random, epoch_secs));
    }
    id
}

} // verus!
