//! A stable machine identifier: the SHA-256 digest, rendered as lowercase
//! hexadecimal, of the textual form of the machine's primary network
//! hardware address.

use vstd::prelude::*;
use crate::hex;
use sha2::Digest;

verus! {

/// The SHA-256 digest of a byte string.
pub uninterp spec fn sha256_of(data: Seq<u8>) -> Seq<u8>;

/// Computes the SHA-256 digest of `data`.
///
/// Relies on `sha2::Sha256` through the `Digest` trait: the digest is 32
/// bytes and a function of the input bytes alone.
#[verifier::external_body]
fn sha256(data: &Vec<u8>) -> (r: Vec<u8>)
    ensures
        r@ == sha256_of(data@),
        r@.len() == 32,
{
    let mut hasher = sha2::Sha256::new();
    hasher.update(data.as_slice());
    hasher.finalize().to_vec()
}

/// Reads the machine's primary network hardware address.
///
/// Relies on `mac_address::get_mac_address`: an address is six bytes; a
/// lookup failure and a machine without an address both give `None`.
#[verifier::external_body]
fn fetch_mac_bytes() -> (r: Option<Vec<u8>>)
    ensures
        r matches Some(mac) ==> mac@.len() == 6,
{
    match mac_address::get_mac_address() {
        Ok(Some(mac)) => Some(mac.bytes().to_vec()),
        _ => None,
    }
}

/// The uppercase hexadecimal digit, as an ASCII byte, for a value in
/// `0 .. 16`.
pub open spec fn upper_hex_byte(n: int) -> u8
    recommends
        0 <= n < 16,
{
    if n < 10 {
        (48 + n) as u8
    } else {
        (55 + n) as u8
    }
}

/// The textual form of a six-byte hardware address, as ASCII bytes: pairs
/// of uppercase hexadecimal digits separated by colons.
pub open spec fn mac_text_of(mac: Seq<u8>) -> Seq<u8>
    recommends
        mac.len() == 6,
{
    Seq::new(
        17,
        |i: int|
            if i % 3 == 0 {
                upper_hex_byte(mac[i / 3] as int / 16)
            } else if i % 3 == 1 {
                upper_hex_byte(mac[i / 3] as int % 16)
            } else {
                58u8
            },
    )
}

/// The machine identifier derived from a six-byte hardware address.
pub open spec fn machine_id_of(mac: Seq<u8>) -> Seq<char>
    recommends
        mac.len() == 6,
{
    hex::hex_of(sha256_of(mac_text_of(mac)))
}

/// The error reported when no hardware address can be read.
pub open spec fn mac_unavailable_msg() -> Seq<char> {
    "Impossible de récupérer l'adresse MAC"@
}

/// Returns the uppercase hexadecimal digit, as an ASCII byte, for `n`.
fn upper_hex_digit(n: u8) -> (r: u8)
    requires
        n < 16,
    ensures
        r == upper_hex_byte(n as int),
{
    if n < 10 {
        48 + n
    } else {
        55 + n
    }
}

/// Renders a six-byte hardware address in its textual form: uppercase
/// hexadecimal pairs separated by colons.
pub fn mac_text(mac: &Vec<u8>) -> (r: Vec<u8>)
    requires
        mac@.len() == 6,
    ensures
        r@ == mac_text_of(mac@),
{
    let mut out: Vec<u8> = Vec::new();
    let mut i: usize = 0;
    while i < 6
        invariant
            mac@.len() == 6,
            i <= 6,
            out@.len() == if i == 0 { 0int } else { 3 * i - 1 },
            forall|j: int| 0 <= j < out@.len() ==> out@[j] == mac_text_of(mac@)[j],
        decreases 6 - i,
    {
        if i > 0 {
            out.push(58);
        }
        let b = mac[i];
        out.push(upper_hex_digit(b / 16));
        out.push(upper_hex_digit(b % 16));
        i = i + 1;
    }
    proof {
        assert(out@ =~= mac_text_of(mac@));
    }
    out
}

/// Derives the machine identifier from a six-byte hardware address: the
/// SHA-256 digest of its textual form, rendered as lowercase hexadecimal.
pub fn machine_id_from_mac(mac: &Vec<u8>) -> (r: String)
    requires
        mac@.len() == 6,
    ensures
        r@ == machine_id_of(mac@),
        r@.len() == 64,
{
    let text = mac_text(mac);
    let digest = sha256(&text);
    hex::to_lower_hex(&digest)
}

/// Two reads of the same hardware address give the same identifier: the
/// identifier is a function of the address bytes alone.
pub proof fn lemma_machine_id_deterministic(mac1: Seq<u8>, mac2: Seq<u8>)
    requires
        mac1 == mac2,
    ensures
        machine_id_of(mac1) == machine_id_of(mac2),
{
}

/// Reads the machine's primary network hardware address and derives the
/// machine identifier from it; fails when no address can be read.
pub fn get_machine_id() -> (r: Result<String, String>)
    ensures
        r matches Ok(id) ==> (id@.len() == 64 && exists|mac: Seq<u8>|
            mac.len() == 6 && id@ == machine_id_of(mac)),
        r matches Err(e) ==> e@ == mac_unavailable_msg(),
{
    match fetch_mac_bytes() {
        Some(mac) => Ok(machine_id_from_mac(&mac)),
        None => Err("Impossible de récupérer l'adresse MAC".to_owned()),
    }
}

} // verus!
