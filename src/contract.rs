use vstd::prelude::*;

use near_contract_standards::non_fungible_token::metadata::TokenMetadata;
use near_contract_standards::non_fungible_token::{NonFungibleToken, Token};
use near_sdk::collections::LookupMap;
use near_sdk::json_types::Base64VecU8;
use near_sdk::AccountId;

use vstd::utf8::encode_utf8;

use crate::catalog::{select_variant, variant_of, HeroView};
use crate::host::{
    account_id_valid, attached_deposit, block_timestamp, current_account_id, map_get, map_insert,
    mint, owner_index_contains, parse_account_id, random_seed, sha256_of, stored_values,
    token_owners,
};
use crate::identity::{build_identity, media_text, stats_text, title_text, token_id_text};
use crate::rarity::{rarity_from_code_spec, rarity_of, select_rarity, Rarity};
use crate::text::decimal;

verus! {

/// One NEAR in yoctoNEAR.
pub const ONE_NEAR: u128 = 1_000_000_000_000_000_000_000_000;

/// The smallest deposit, attached to the ownership transfer.
pub const ONE_YOCTO: u128 = 1;

/// Gas given to the ownership transfer call.
pub const SINGLE_CALL_GAS: u64 = 10_000_000_000_000;

/// Why crafting a hero failed.
#[derive(PartialEq, Eq, Structural, Clone, Copy, Debug)]
pub enum CraftError {
    /// Fewer than three entropy bytes were available.
    EntropyExhausted,
    /// The recipient is not a valid account id.
    InvalidAccount,
    /// An asset with the generated id already exists.
    DuplicateAsset,
}

/// Why a pay-to-roll call failed.
#[derive(PartialEq, Eq, Structural, Clone, Copy, Debug)]
pub enum PlayError {
    /// The attached deposit was not above one NEAR.
    InsufficientPayment,
    /// No entropy byte was available.
    EntropyExhausted,
}

/// A request to move a token from the contract to a player: a call of
/// `method` on `contract` with the token id and the receiver, carrying
/// `deposit` yoctoNEAR and `gas`. Nothing waits for its outcome.
pub struct TransferRequest {
    pub contract: AccountId,
    pub method: String,
    pub token_id: String,
    pub receiver_id: String,
    pub deposit: u128,
    pub gas: u64,
}

/// A crafted hero: the token as minted, and the transfer to issue for it.
pub struct Crafted {
    pub token: Token,
    pub transfer: TransferRequest,
}

/// The contract state: the NFT ledger and the progression ledger.
pub struct Contract {
    pub owner_id: AccountId,
    pub tokens: NonFungibleToken,
    pub stars: LookupMap<String, u64>,
    pub experience: LookupMap<String, u64>,
    pub maximum_level: LookupMap<String, u64>,
    /// Rarity of each asset, by its code (`Rarity::code`).
    pub rarity: LookupMap<String, u64>,
}

pub open spec fn stored(m: LookupMap<String, u64>, key: Seq<char>) -> Option<u64> {
    if stored_values(m).contains_key(key) {
        Some(stored_values(m)[key])
    } else {
        None
    }
}

pub type Stats = (Option<u64>, Option<u64>, Option<u64>, Option<Rarity>);

/// The id of the hero that the entropy bytes and timestamp generate.
pub open spec fn crafted_id(seed: Seq<u8>, timestamp: u64) -> Seq<char> {
    token_id_text(variant_of(rarity_of(seed[0]), seed[1]).media_url, seed[2], timestamp)
}

pub open spec fn text_is(o: Option<String>, t: Seq<char>) -> bool {
    o matches Some(s) && s@ == t
}

/// The metadata minted for `hero` at `timestamp`.
pub open spec fn hero_metadata(md: TokenMetadata, hero: HeroView, timestamp: u64) -> bool {
    &&& text_is(md.title, title_text(hero.name, hero.power, hero.health))
    &&& text_is(md.description, stats_text(hero.power, hero.health))
    &&& text_is(md.media, media_text(hero.media_url))
    &&& (md.media_hash matches Some(h) && h.0@ == sha256_of(encode_utf8(media_text(hero.media_url))))
    &&& md.copies == Some(1u64)
    &&& text_is(md.issued_at, decimal(timestamp as nat))
    &&& md.expires_at is None
    &&& md.starts_at is None
    &&& md.updated_at is None
    &&& md.extra is None
    &&& md.reference is None
    &&& md.reference_hash is None
}

/// What a successful craft from `seed` at `timestamp` leaves behind.
pub open spec fn crafted_as(
    before: Contract,
    after: Contract,
    c: Crafted,
    seed: Seq<u8>,
    timestamp: u64,
    contract: AccountId,
    username: Seq<char>,
) -> bool {
    let id = crafted_id(seed, timestamp);
    &&& c.token.token_id@ == id
    &&& c.token.owner_id == contract
    &&& (c.token.metadata matches Some(md) && hero_metadata(
        md,
        variant_of(rarity_of(seed[0]), seed[1]),
        timestamp,
    ))
    &&& token_owners(after.tokens) == token_owners(before.tokens).insert(id, contract)
    &&& after.stats_of(id) == (Some(0u64), Some(0u64), Some(0u64), Some(rarity_of(seed[0])))
    &&& forall|k: Seq<char>| k != id ==> #[trigger] after.stats_of(k) == before.stats_of(k)
    &&& after.owner_id == before.owner_id
    &&& c.transfer.contract == contract
    &&& c.transfer.method@ == "nft_transfer"@
    &&& c.transfer.token_id@ == id
    &&& c.transfer.receiver_id@ == username
    &&& c.transfer.deposit == ONE_YOCTO
    &&& c.transfer.gas == SINGLE_CALL_GAS
}

/// The outcome of crafting from at least three entropy bytes for a valid
/// recipient: a duplicate when the generated id is taken, else success.
pub open spec fn craft_outcome(
    before: Contract,
    after: Contract,
    r: Result<Crafted, CraftError>,
    seed: Seq<u8>,
    timestamp: u64,
    contract: AccountId,
    username: Seq<char>,
) -> bool {
    if before.is_taken(crafted_id(seed, timestamp)) {
        r == Err::<Crafted, CraftError>(CraftError::DuplicateAsset) && after == before
    } else {
        r matches Ok(c) && crafted_as(before, after, c, seed, timestamp, contract, username)
    }
}

/// A craft never resets a record that has a tier: every such record is
/// left exactly as it was.
pub proof fn lemma_craft_keeps_tiered_records(
    before: Contract,
    after: Contract,
    r: Result<Crafted, CraftError>,
    seed: Seq<u8>,
    timestamp: u64,
    contract: AccountId,
    username: Seq<char>,
    k: Seq<char>,
)
    requires
        craft_outcome(before, after, r, seed, timestamp, contract, username),
        before.stats_of(k).3 is Some,
    ensures
        after.stats_of(k) == before.stats_of(k),
{
    assert(stored_values(before.rarity).contains_key(k));
    if !before.is_taken(crafted_id(seed, timestamp)) {
        assert(k != crafted_id(seed, timestamp));
    }
}

/// The result of `roll` for a deposit and an entropy source.
pub open spec fn roll_spec(deposit: u128, seed: Seq<u8>) -> Result<u8, PlayError> {
    if deposit <= ONE_NEAR {
        Err(PlayError::InsufficientPayment)
    } else if seed.len() == 0 {
        Err(PlayError::EntropyExhausted)
    } else {
        Ok(seed[0])
    }
}

/// Pay-to-roll gate: the first entropy byte, when more than one NEAR was paid.
pub fn roll(deposit: u128, seed: &Vec<u8>) -> (r: Result<u8, PlayError>)
    ensures
        r == roll_spec(deposit, seed@),
{
    if deposit <= ONE_NEAR {
        Err(PlayError::InsufficientPayment)
    } else if seed.len() == 0 {
        Err(PlayError::EntropyExhausted)
    } else {
        Ok(seed[0])
    }
}

impl Contract {
    /// The progression record of an asset, as `get_stats` reports it.
    pub open spec fn stats_of(&self, id: Seq<char>) -> Stats {
        (
            stored(self.stars, id),
            stored(self.experience, id),
            stored(self.maximum_level, id),
            match stored(self.rarity, id) {
                Some(c) => rarity_from_code_spec(c),
                None => None,
            },
        )
    }

    /// The asset has a progression record.
    pub open spec fn is_known(&self, id: Seq<char>) -> bool {
        ||| stored_values(self.stars).contains_key(id)
        ||| stored_values(self.experience).contains_key(id)
        ||| stored_values(self.maximum_level).contains_key(id)
        ||| stored_values(self.rarity).contains_key(id)
    }

    /// The id is minted, or already has a tier record.
    pub open spec fn is_taken(&self, id: Seq<char>) -> bool {
        token_owners(self.tokens).contains_key(id) || stored_values(self.rarity).contains_key(id)
    }

    /// Whether the NFT ledger has minted `token_id`.
    pub fn is_minted(&self, token_id: &String) -> (r: bool)
        ensures
            r == token_owners(self.tokens).contains_key(token_id@),
    {
        owner_index_contains(&self.tokens, token_id)
    }

    /// Reads the progression record of an asset; all parts are `None` for an
    /// unknown asset.
    pub fn get_stats(&self, token_id: String) -> (r: Stats)
        ensures
            r == self.stats_of(token_id@),
            !self.is_known(token_id@) ==> r == (None::<u64>, None::<u64>, None::<u64>, None::<Rarity>),
    {
        let code = map_get(&self.rarity, &token_id);
        let rarity = match code {
            Some(c) => Rarity::from_code(c),
            None => None,
        };
        (
            map_get(&self.stars, &token_id),
            map_get(&self.experience, &token_id),
            map_get(&self.maximum_level, &token_id),
            rarity,
        )
    }

    /// Overwrites the three mutable progression fields of an asset; its
    /// rarity and every other asset's record stay as they were.
    pub fn update_hero_stats(
        &mut self,
        token_id: String,
        new_stars: u64,
        new_experience: u64,
        new_maximum_level: u64,
    )
        ensures
            final(self).stats_of(token_id@) == (
                Some(new_stars),
                Some(new_experience),
                Some(new_maximum_level),
                old(self).stats_of(token_id@).3,
            ),
            forall|k: Seq<char>| k != token_id@ ==> #[trigger] final(self).stats_of(k) == old(self).stats_of(k),
            final(self).rarity == old(self).rarity,
            final(self).tokens == old(self).tokens,
            final(self).owner_id == old(self).owner_id,
    {
        map_insert(&mut self.stars, &token_id, new_stars);
        map_insert(&mut self.experience, &token_id, new_experience);
        map_insert(&mut self.maximum_level, &token_id, new_maximum_level);
    }

    /// Starts the progression record of a new asset at zero.
    fn initialize_stats(&mut self, token_id: &String, rarity: Rarity)
        ensures
            final(self).stats_of(token_id@) == (Some(0u64), Some(0u64), Some(0u64), Some(rarity)),
            forall|k: Seq<char>| k != token_id@ ==> #[trigger] final(self).stats_of(k) == old(self).stats_of(k),
            final(self).tokens == old(self).tokens,
            final(self).owner_id == old(self).owner_id,
    {
        map_insert(&mut self.stars, token_id, 0);
        map_insert(&mut self.experience, token_id, 0);
        map_insert(&mut self.maximum_level, token_id, 0);
        map_insert(&mut self.rarity, token_id, rarity.code());
    }

    /// Registers a token with the NFT ledger, owned by `receiver_id`.
    pub fn nft_mint(&mut self, token_id: String, receiver_id: AccountId, token_metadata: TokenMetadata) -> (r: Token)
        requires
            !token_owners(old(self).tokens).contains_key(token_id@),
        ensures
            r.token_id@ == token_id@,
            r.owner_id == receiver_id,
            r.metadata == Some(token_metadata),
            token_owners(final(self).tokens) == token_owners(old(self).tokens).insert(token_id@, receiver_id),
            final(self).stars == old(self).stars,
            final(self).experience == old(self).experience,
            final(self).maximum_level == old(self).maximum_level,
            final(self).rarity == old(self).rarity,
            final(self).owner_id == old(self).owner_id,
    {
        mint(&mut self.tokens, token_id, receiver_id, token_metadata)
    }

    /// Generates a hero from three entropy bytes and a timestamp, mints it to
    /// `contract`, and starts its progression record. The result carries the
    /// transfer to `username` that the caller is to issue. Nothing changes
    /// when an error is returned.
    pub fn craft_with(
        &mut self,
        seed: &Vec<u8>,
        timestamp: u64,
        contract: AccountId,
        username: String,
    ) -> (r: Result<Crafted, CraftError>)
        ensures
            seed@.len() < 3 ==> r == Err::<Crafted, CraftError>(CraftError::EntropyExhausted),
            seed@.len() >= 3 && !account_id_valid(username@) ==> r == Err::<Crafted, CraftError>(
                CraftError::InvalidAccount,
            ),
            seed@.len() >= 3 && account_id_valid(username@) ==> craft_outcome(
                *old(self),
                *final(self),
                r,
                seed@,
                timestamp,
                contract,
                username@,
            ),
            r.is_err() ==> *final(self) == *old(self),
    {
        if seed.len() < 3 {
            return Err(CraftError::EntropyExhausted);
        }
        let rarity = select_rarity(seed[0]);
        let hero = select_variant(rarity, seed[1]);
        let ident = build_identity(&hero, seed[2], timestamp);
        if parse_account_id(username.clone()).is_none() {
            return Err(CraftError::InvalidAccount);
        }
        if owner_index_contains(&self.tokens, &ident.token_id) || map_get(&self.rarity, &ident.token_id).is_some() {
            return Err(CraftError::DuplicateAsset);
        }
        let token_id = ident.token_id;
        let meta = TokenMetadata {
            title: Some(ident.title),
            description: Some(ident.description),
            media: Some(ident.media),
            media_hash: Some(Base64VecU8(ident.media_hash)),
            copies: Some(ident.copies),
            issued_at: Some(ident.issued_at),
            expires_at: None,
            starts_at: None,
            updated_at: None,
            extra: None,
            reference: None,
            reference_hash: None,
        };
        let token = self.nft_mint(token_id.clone(), contract.clone(), meta);
        self.initialize_stats(&token_id, hero.rarity);
        let transfer = TransferRequest {
            contract,
            method: String::from_str("nft_transfer"),
            token_id,
            receiver_id: username,
            deposit: ONE_YOCTO,
            gas: SINGLE_CALL_GAS,
        };
        Ok(Crafted { token, transfer })
    }

    /// Crafts a hero for `username` from the block's random seed and time,
    /// minted to the contract's own account.
    pub fn craft_new_hero(&mut self, username: String) -> (r: Result<Crafted, CraftError>)
        ensures
            !account_id_valid(username@) <==> r == Err::<Crafted, CraftError>(CraftError::InvalidAccount),
            account_id_valid(username@) ==> exists|seed: Seq<u8>, ts: u64, contract: AccountId|
                seed.len() == 32 && #[trigger] craft_outcome(
                    *old(self),
                    *final(self),
                    r,
                    seed,
                    ts,
                    contract,
                    username@,
                ),
            r.is_err() ==> *final(self) == *old(self),
    {
        let seed = random_seed();
        let timestamp = block_timestamp();
        let contract = current_account_id();
        let ghost before = *self;
        let r = self.craft_with(&seed, timestamp, contract, username);
        proof {
            if account_id_valid(username@) {
                assert(craft_outcome(before, *self, r, seed@, timestamp, contract, username@));
            }
        }
        r
    }

    /// Pay-to-roll: one entropy byte, when more than one NEAR is attached.
    pub fn play(&mut self) -> (r: Result<u8, PlayError>)
        ensures
            *final(self) == *old(self),
            exists|deposit: u128, seed: Seq<u8>| seed.len() == 32 && r == roll_spec(deposit, seed),
    {
        let deposit = attached_deposit();
        let seed = random_seed();
        roll(deposit, &seed)
    }
}

} // verus!
