use vstd::prelude::*;
use crate::error::NFTCoreError;
use crate::events::CEP78Event;
use crate::events::pairs_view;
use crate::events::serialize_event;
use crate::events::spec_event_fields;

verus! {

/// The character for a single hexadecimal digit, lower case.
pub open spec fn hex_digit(d: nat) -> char {
    if d == 0 {
        '0'
    } else if d == 1 {
        '1'
    } else if d == 2 {
        '2'
    } else if d == 3 {
        '3'
    } else if d == 4 {
        '4'
    } else if d == 5 {
        '5'
    } else if d == 6 {
        '6'
    } else if d == 7 {
        '7'
    } else if d == 8 {
        '8'
    } else if d == 9 {
        '9'
    } else if d == 10 {
        'a'
    } else if d == 11 {
        'b'
    } else if d == 12 {
        'c'
    } else if d == 13 {
        'd'
    } else if d == 14 {
        'e'
    } else {
        'f'
    }
}

/// The lowercase hexadecimal form of a byte string: two digits per byte,
/// most significant digit first.
pub open spec fn hex_lower_of(bs: Seq<u8>) -> Seq<char>
    decreases bs.len(),
{
    if bs.len() == 0 {
        Seq::empty()
    } else {
        hex_lower_of(bs.drop_last()) + seq![
            hex_digit((bs.last() / 16) as nat),
            hex_digit((bs.last() % 16) as nat),
        ]
    }
}

/// The 32-byte package hash that a formatted package reference spells,
/// if it parses.
pub uninterp spec fn parsed_package_of(s: Seq<char>) -> Option<[u8; 32]>;

/// Relies on casper_types::contracts::ContractPackageHash::from_formatted_str:
/// it parses the `contract-package-` formatted form into the 32-byte hash it
/// spells, rejects anything else, and depends on the input alone.
#[verifier::external_body]
fn parse_package_hash(s: &str) -> (r: Option<[u8; 32]>)
    ensures
        r == parsed_package_of(s@),
{
    match casper_types::contracts::ContractPackageHash::from_formatted_str(s) {
        Ok(h) => Some(h.value()),
        Err(_) => None,
    }
}

/// Relies on casper_types::contracts::ContractPackageHash's Display
/// implementation: the lowercase hexadecimal form of the 32 bytes, a
/// function of the bytes alone.
#[verifier::external_body]
fn format_package_hash(bytes: &[u8; 32]) -> (r: String)
    ensures
        r@ == hex_lower_of(bytes@),
{
    let h = casper_types::contracts::ContractPackageHash::new(*bytes);
    format!("{}", h)
}

/// The storage key under which a collection's installed package
/// reference is recorded, resolved from the collection-name slot's
/// reading: an absent slot is a missing collection name, a slot whose
/// value is not a string is a malformed one; both are fatal
/// configuration errors for the emitting call.
pub fn collection_package_key(lookup: Option<Option<String>>) -> (res: Result<
    String,
    NFTCoreError,
>)
    ensures
        match lookup {
            None => res == Err::<String, NFTCoreError>(NFTCoreError::MissingCollectionName),
            Some(None) => res == Err::<String, NFTCoreError>(
                NFTCoreError::InvalidCollectionName,
            ),
            Some(Some(name)) => res is Ok && res->Ok_0@ == "cep78_"@ + name@,
        },
{
    match lookup {
        None => Err(NFTCoreError::MissingCollectionName),
        Some(None) => Err(NFTCoreError::InvalidCollectionName),
        Some(Some(name)) => {
            let mut key = String::from_str("cep78_");
            key.append(name.as_str());
            Ok(key)
        },
    }
}

/// The formatted package identifier events are tagged with: the
/// lowercase hexadecimal form of the hash that the stored package
/// reference parses to, or nothing if the reference is malformed.
pub fn package_display_from_stored(stored: &str) -> (r: Option<String>)
    ensures
        match parsed_package_of(stored@) {
            None => r is None,
            Some(bytes) => r is Some && r->0@ == hex_lower_of(bytes@),
        },
{
    match parse_package_hash(stored) {
        Some(bytes) => Some(format_package_hash(&bytes)),
        None => None,
    }
}

/// Serializes one event against the stored package reference: the
/// published record is the event's ordered field mapping, tagged with
/// the parsed package's hexadecimal identifier; a malformed reference
/// aborts the emission.
pub fn prepare_event_record(e: &CEP78Event, stored_package_ref: &str) -> (r: Option<Vec<
    (String, String),
>>)
    ensures
        match parsed_package_of(stored_package_ref@) {
            None => r is None,
            Some(bytes) => r is Some && pairs_view(r->0@) == spec_event_fields(
                *e,
                hex_lower_of(bytes@),
            ),
        },
{
    match package_display_from_stored(stored_package_ref) {
        Some(package) => Some(serialize_event(e, package.as_str())),
        None => None,
    }
}

} // verus!
