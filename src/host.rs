//! The NEAR runtime and the NFT standard implementation, as this library
//! relies on them.
use vstd::prelude::*;

use near_contract_standards::non_fungible_token::metadata::TokenMetadata;
use near_contract_standards::non_fungible_token::{NonFungibleToken, Token};
use near_sdk::collections::LookupMap;
use near_sdk::json_types::Base64VecU8;
use near_sdk::AccountId;

verus! {

#[verifier::external_type_specification]
#[verifier::external_body]
pub struct ExAccountId(AccountId);

#[verifier::external_type_specification]
#[verifier::external_body]
pub struct ExNonFungibleToken(NonFungibleToken);

#[verifier::external_type_specification]
pub struct ExToken(Token);

#[verifier::external_type_specification]
pub struct ExTokenMetadata(TokenMetadata);

#[verifier::external_type_specification]
pub struct ExBase64VecU8(Base64VecU8);

#[verifier::external_type_specification]
#[verifier::external_body]
#[verifier::reject_recursive_types(K)]
#[verifier::reject_recursive_types(V)]
pub struct ExLookupMap<K, V>(LookupMap<K, V>);

/// Relies on the derived `Clone` of `AccountId`: a copy of the same id.
pub assume_specification[ <AccountId as Clone>::clone ](a: &AccountId) -> (r: AccountId)
    ensures
        r == *a,
;

/// The entries that a storage-backed map holds under its key prefix. The
/// entries live in contract storage: maps are to be built on distinct
/// prefixes, as two maps on one prefix would share them.
pub uninterp spec fn stored_values(m: LookupMap<String, u64>) -> Map<Seq<char>, u64>;

/// The owner of each token id that the NFT ledger has minted.
pub uninterp spec fn token_owners(t: NonFungibleToken) -> Map<Seq<char>, AccountId>;

/// The SHA-256 digest of a byte string.
pub uninterp spec fn sha256_of(b: Seq<u8>) -> Seq<u8>;

pub open spec fn is_account_separator(c: char) -> bool {
    c == '-' || c == '_' || c == '.'
}

pub open spec fn is_account_char(c: char) -> bool {
    ('a' <= c <= 'z') || ('0' <= c <= '9') || is_account_separator(c)
}

/// A valid NEAR account id: 2 to 64 characters out of `a-z`, `0-9`, `-`,
/// `_` and `.`, with no separator first, last, or next to another.
pub open spec fn account_id_valid(s: Seq<char>) -> bool {
    &&& 2 <= s.len() <= 64
    &&& forall|i: int| 0 <= i < s.len() ==> is_account_char(#[trigger] s[i])
    &&& !is_account_separator(s[0])
    &&& !is_account_separator(s.last())
    &&& forall|i: int|
        0 < i < s.len() ==> !(is_account_separator(#[trigger] s[i]) && is_account_separator(s[i - 1]))
}

/// Relies on `LookupMap::get`: the value stored under the key, if any.
#[verifier::external_body]
pub(crate) fn map_get(m: &LookupMap<String, u64>, key: &String) -> (r: Option<u64>)
    ensures
        r == (if stored_values(*m).contains_key(key@) {
            Some(stored_values(*m)[key@])
        } else {
            None
        }),
{
    m.get(key)
}

/// Relies on `LookupMap::insert`: the key now maps to the value, other keys
/// are untouched.
#[verifier::external_body]
pub(crate) fn map_insert(m: &mut LookupMap<String, u64>, key: &String, value: u64)
    ensures
        stored_values(*final(m)) == stored_values(*old(m)).insert(key@, value),
{
    m.insert(key, &value);
}

/// Relies on `TreeMap::contains_key` over the ledger's owner index, which
/// holds exactly the minted token ids.
#[verifier::external_body]
pub(crate) fn owner_index_contains(t: &NonFungibleToken, token_id: &String) -> (r: bool)
    ensures
        r == token_owners(*t).contains_key(token_id@),
{
    t.owner_by_id.contains_key(token_id)
}

/// Relies on `NonFungibleToken::internal_mint_with_refund` without a refund
/// account: it records the owner and returns the token as given, and panics
/// only on a repeated id or on missing metadata (always given here).
#[verifier::external_body]
pub(crate) fn mint(t: &mut NonFungibleToken, token_id: String, owner: AccountId, meta: TokenMetadata) -> (r: Token)
    requires
        !token_owners(*old(t)).contains_key(token_id@),
    ensures
        token_owners(*final(t)) == token_owners(*old(t)).insert(token_id@, owner),
        r.token_id@ == token_id@,
        r.owner_id == owner,
        r.metadata == Some(meta),
{
    t.internal_mint_with_refund(token_id, owner, Some(meta), None)
}

/// Relies on `near_sdk::env::sha256`: the 32-byte digest of the input.
#[verifier::external_body]
pub(crate) fn sha256(b: &[u8]) -> (r: Vec<u8>)
    ensures
        r@ == sha256_of(b@),
        r@.len() == 32,
{
    near_sdk::env::sha256(b)
}

/// Relies on `near_sdk::env::random_seed`: the block's 32-byte random seed.
#[verifier::external_body]
pub(crate) fn random_seed() -> (r: Vec<u8>)
    ensures
        r@.len() == 32,
{
    near_sdk::env::random_seed()
}

/// Relies on `near_sdk::env::block_timestamp`: the current block's time in nanoseconds.
#[verifier::external_body]
pub(crate) fn block_timestamp() -> (r: u64) {
    near_sdk::env::block_timestamp()
}

/// Relies on `near_sdk::env::current_account_id`: the account this contract runs as.
#[verifier::external_body]
pub(crate) fn current_account_id() -> (r: AccountId) {
    near_sdk::env::current_account_id()
}

/// Relies on `near_sdk::env::attached_deposit`: the deposit attached to this call, in
/// yoctoNEAR.
#[verifier::external_body]
pub(crate) fn attached_deposit() -> (r: u128) {
    near_sdk::env::attached_deposit().as_yoctonear()
}

/// Relies on `AccountId::try_from`: succeeds exactly on valid account ids.
#[verifier::external_body]
pub(crate) fn parse_account_id(s: String) -> (r: Option<AccountId>)
    ensures
        r.is_some() == account_id_valid(s@),
{
    AccountId::try_from(s).ok()
}

} // verus!
