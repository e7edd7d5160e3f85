use vstd::prelude::*;

use crate::error::ClassError;

verus! {

#[verifier::external_type_specification]
#[verifier::external_body]
pub struct ExBech32Error(bech32::Error);

/// The human-readable part and the 5-bit data words of a bech32 string, or
/// `None` where the string is not well-formed bech32.
pub uninterp spec fn bech32_parts(s: Seq<char>) -> Option<(Seq<char>, Seq<u8>)>;

/// The bech32 string that carries `data` under the human-readable part `hrp`,
/// or `None` where the encoder refuses them.
pub uninterp spec fn bech32_string(hrp: Seq<char>, data: Seq<u8>) -> Option<Seq<char>>;

/// Relies on `bech32::decode`: it accepts or refuses a string by its characters
/// alone, and hands back the human-readable part and the 5-bit data words.
#[verifier::external_body]
fn bech32_decode(s: &str) -> (r: Result<(String, Vec<u8>), bech32::Error>)
    ensures
        match r {
            Ok((hrp, data)) => bech32_parts(s@) == Some((hrp@, data@)),
            Err(_) => bech32_parts(s@) is None,
        },
{
    bech32::decode(s).map(|(hrp, data, _)| (hrp, data.into_iter().map(|w| w.to_u8()).collect()))
}

/// Relies on `bech32::u5::try_from_u8`, which refuses a word above 31, and on
/// `bech32::encode` with the classic checksum: the result depends on the
/// human-readable part and the data words alone.
#[verifier::external_body]
fn bech32_encode(hrp: &str, data: &Vec<u8>) -> (r: Result<String, bech32::Error>)
    ensures
        match r {
            Ok(s) => bech32_string(hrp@, data@) == Some(s@),
            Err(_) => bech32_string(hrp@, data@) is None,
        },
{
    let words: Result<Vec<bech32::u5>, bech32::Error> =
        data.iter().map(|b| bech32::u5::try_from_u8(*b)).collect();
    words.and_then(|w| bech32::encode(hrp, w, bech32::Variant::Bech32))
}

/// The address that carries the account data of `foreign` under the
/// human-readable part of `local`: `None` where either is not bech32, or the
/// two cannot be joined.
pub open spec fn converted_address(local: Seq<char>, foreign: Seq<char>) -> Option<Seq<char>> {
    match (bech32_parts(foreign), bech32_parts(local)) {
        (Some(f), Some(l)) => bech32_string(l.0, f.1),
        _ => None,
    }
}

/// Maps an address of a remote chain to one of the local chain, whose prefix
/// is taken from `local_address` (the address of the contract that runs).
pub fn convert_owner_chain_address(local_address: &str, foreign_address: &str) -> (r: Result<
    String,
    ClassError,
>)
    ensures
        match r {
            Ok(a) => converted_address(local_address@, foreign_address@) == Some(a@),
            Err(e) => e == ClassError::AddressConversionFailure && converted_address(
                local_address@,
                foreign_address@,
            ) is None,
        },
{
    let foreign = bech32_decode(foreign_address);
    let local = bech32_decode(local_address);
    match (foreign, local) {
        (Ok((_, data)), Ok((hrp, _))) => match bech32_encode(hrp.as_str(), &data) {
            Ok(a) => Ok(a),
            Err(_) => Err(ClassError::AddressConversionFailure),
        },
        _ => Err(ClassError::AddressConversionFailure),
    }
}

/// A string that is not well-formed bech32 is never converted.
pub proof fn lemma_malformed_address_not_converted(local: Seq<char>, foreign: Seq<char>)
    requires
        bech32_parts(foreign) is None,
    ensures
        converted_address(local, foreign) is None,
{
}

} // verus!
