//! The two collections of the host that the contract reads and fills: strings, which callers
//! hand in, and vectors, in which a page of match ids is returned.
//!
//! The host meters what a call uses and ends one that has used up its budget; the contracts
//! below speak of calls that it lets go on.

use soroban_sdk::Env;
use vstd::prelude::*;

verus! {

/// The handle through which host objects are made.
#[verifier::external_type_specification]
#[verifier::external_body]
pub struct ExEnv(soroban_sdk::Env);

/// The host's string: any bytes at all.
#[verifier::external_type_specification]
#[verifier::external_body]
pub struct ExString(soroban_sdk::String);

/// The host's vector.
#[verifier::external_type_specification]
#[verifier::external_body]
#[verifier::reject_recursive_types(T)]
pub struct ExVec<T>(soroban_sdk::Vec<T>);

/// The bytes that a host string holds.
pub uninterp spec fn bytes_of(text: soroban_sdk::String) -> Seq<u8>;

/// The ids that a host vector holds, in order.
pub uninterp spec fn ids_of(ids: soroban_sdk::Vec<u64>) -> Seq<u64>;

/// `soroban_sdk::String::copy_into_slice`, into a buffer that is as long as the string: the
/// buffer then holds the bytes of the string, in order.
#[verifier::external_body]
pub(crate) fn read_bytes(text: &soroban_sdk::String) -> (bytes: Vec<u8>)
    ensures
        bytes@ == bytes_of(*text),
{
    let mut bytes = vec![0u8; text.len() as usize];
    text.copy_into_slice(&mut bytes);
    bytes
}

/// `soroban_sdk::Vec::new`: a vector without items.
#[verifier::external_body]
pub(crate) fn no_ids(env: &Env) -> (ids: soroban_sdk::Vec<u64>)
    ensures
        ids_of(ids) == Seq::<u64>::empty(),
{
    soroban_sdk::Vec::new(env)
}

/// `soroban_sdk::Vec::push_back`: one item more, at the end; the others stay as they are. The
/// host refuses to hold more than `u32::MAX` items.
#[verifier::external_body]
pub(crate) fn push_id(ids: &mut soroban_sdk::Vec<u64>, id: u64)
    requires
        ids_of(*old(ids)).len() < u32::MAX,
    ensures
        ids_of(*final(ids)) == ids_of(*old(ids)).push(id),
{
    ids.push_back(id)
}

} // verus!
