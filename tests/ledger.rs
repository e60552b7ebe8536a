use hero_forge::{Contract, CraftError, Crafted, PlayError, Rarity, ONE_YOCTO, SINGLE_CALL_GAS};
use near_contract_standards::non_fungible_token::NonFungibleToken;
use near_sdk::collections::LookupMap;
use near_sdk::test_utils::{testing_env_with_promise_results, VMContextBuilder};
use near_sdk::{AccountId, NearToken, PromiseResult};

fn account(s: &str) -> AccountId {
    s.parse().unwrap()
}

fn set_context(deposit: NearToken, seed: [u8; 32], timestamp: u64) {
    let mut b = VMContextBuilder::new();
    b.current_account_id(account("heroes.near"))
        .predecessor_account_id(account("heroes.near"))
        .attached_deposit(deposit)
        .random_seed(seed)
        .block_timestamp(timestamp);
    testing_env_with_promise_results(b.build(), PromiseResult::Successful(vec![]));
}

fn new_contract() -> Contract {
    let owner = account("heroes.near");
    Contract {
        owner_id: owner.clone(),
        tokens: NonFungibleToken::new(
            b"n".to_vec(),
            owner,
            Some(b"m".to_vec()),
            Some(b"e".to_vec()),
            Some(b"a".to_vec()),
        ),
        stars: LookupMap::new(b"s".to_vec()),
        experience: LookupMap::new(b"x".to_vec()),
        maximum_level: LookupMap::new(b"l".to_vec()),
        rarity: LookupMap::new(b"r".to_vec()),
    }
}

fn seed_of(first: [u8; 3]) -> [u8; 32] {
    let mut s = [0u8; 32];
    s[0] = first[0];
    s[1] = first[1];
    s[2] = first[2];
    s
}

#[test]
fn unknown_asset_has_no_stats() {
    set_context(NearToken::from_near(1), [0; 32], 1);
    let c = new_contract();
    assert_eq!(c.get_stats(String::from("nothing:0:0")), (None, None, None, None));
}

fn crafted(r: Result<Crafted, CraftError>) -> Crafted {
    match r {
        Ok(c) => c,
        Err(e) => panic!("craft failed: {:?}", e),
    }
}

#[test]
fn update_then_read_returns_written_values() {
    set_context(NearToken::from_near(1), [0; 32], 1);
    let mut c = new_contract();
    let id = crafted(c.craft_with(&vec![230, 0, 4], 99, account("heroes.near"), String::from("bob.near")))
        .token
        .token_id;
    c.update_hero_stats(id.clone(), 3, 1200, 15);
    assert_eq!(c.get_stats(id.clone()), (Some(3), Some(1200), Some(15), Some(Rarity::Rare)));
    c.update_hero_stats(id.clone(), 4, 0, 16);
    assert_eq!(c.get_stats(id), (Some(4), Some(0), Some(16), Some(Rarity::Rare)));
}

#[test]
fn craft_starts_record_at_zero() {
    set_context(NearToken::from_near(1), [0; 32], 1);
    let mut c = new_contract();
    let out = crafted(c.craft_with(&vec![0, 0, 7], 1000, account("heroes.near"), String::from("alice.near")));
    assert_eq!(out.token.token_id, "UndeadArcherDD:7:1000");
    assert_eq!(out.token.owner_id, account("heroes.near"));
    let md = out.token.metadata.unwrap();
    assert_eq!(md.title, Some(String::from("Krong 20/50")));
    assert_eq!(md.description, Some(String::from("20/50")));
    assert_eq!(md.media, Some(String::from("UndeadArcherDD.png")));
    assert_eq!(md.media_hash.unwrap().0, near_sdk::env::sha256(b"UndeadArcherDD.png"));
    assert_eq!(md.copies, Some(1));
    assert_eq!(md.issued_at, Some(String::from("1000")));
    assert_eq!(md.extra, None);
    assert!(c.is_minted(&String::from("UndeadArcherDD:7:1000")));
    let stats = c.get_stats(String::from("UndeadArcherDD:7:1000"));
    assert_eq!(stats, (Some(0), Some(0), Some(0), Some(Rarity::Common)));
}

#[test]
fn craft_returns_transfer_to_recipient() {
    set_context(NearToken::from_near(1), [0; 32], 1);
    let mut c = new_contract();
    let out = crafted(c.craft_with(&vec![0, 0, 7], 5, account("heroes.near"), String::from("bob.near")));
    assert_eq!(out.transfer.contract, account("heroes.near"));
    assert_eq!(out.transfer.method, "nft_transfer");
    assert_eq!(out.transfer.token_id, "UndeadArcherDD:7:5");
    assert_eq!(out.transfer.receiver_id, "bob.near");
    assert_eq!(out.transfer.deposit, ONE_YOCTO);
    assert_eq!(out.transfer.gas, SINGLE_CALL_GAS);
}

#[test]
fn craft_twice_at_same_instant_collides() {
    set_context(NearToken::from_near(1), [0; 32], 1);
    let mut c = new_contract();
    let first = crafted(c.craft_with(&vec![250, 90, 7], 5, account("heroes.near"), String::from("bob.near")));
    assert_eq!(first.token.token_id, "HumanHeal:7:5");
    let second = c.craft_with(&vec![250, 90, 7], 5, account("heroes.near"), String::from("carol.near"));
    assert_eq!(second.err(), Some(CraftError::DuplicateAsset));
}

#[test]
fn craft_does_not_reset_an_existing_record() {
    set_context(NearToken::from_near(1), [0; 32], 1);
    let mut c = new_contract();
    let id = crafted(c.craft_with(&vec![241, 0, 1], 8, account("heroes.near"), String::from("bob.near")))
        .token
        .token_id;
    c.update_hero_stats(id.clone(), 2, 30, 4);
    let again = c.craft_with(&vec![241, 0, 1], 8, account("heroes.near"), String::from("bob.near"));
    assert_eq!(again.err(), Some(CraftError::DuplicateAsset));
    assert_eq!(c.get_stats(id), (Some(2), Some(30), Some(4), Some(Rarity::Epic)));
}

#[test]
fn craft_rejects_invalid_recipient() {
    set_context(NearToken::from_near(1), [0; 32], 1);
    let mut c = new_contract();
    let r = c.craft_with(&vec![0, 0, 7], 123, account("heroes.near"), String::from("Bob"));
    assert_eq!(r.err(), Some(CraftError::InvalidAccount));
    assert_eq!(c.get_stats(String::from("UndeadArcherDD:7:123")), (None, None, None, None));
    assert!(!c.is_minted(&String::from("UndeadArcherDD:7:123")));
}

#[test]
fn craft_needs_three_entropy_bytes() {
    set_context(NearToken::from_near(1), [0; 32], 1);
    let mut c = new_contract();
    let r = c.craft_with(&vec![0, 0], 123, account("heroes.near"), String::from("bob.near"));
    assert_eq!(r.err(), Some(CraftError::EntropyExhausted));
}

#[test]
fn craft_new_hero_uses_block_seed_and_time() {
    set_context(NearToken::from_near(1), seed_of([255, 255, 3]), 42);
    let mut c = new_contract();
    let out = crafted(c.craft_new_hero(String::from("bob.near")));
    assert_eq!(out.token.token_id, "DragonBoss:3:42");
    let md = out.token.metadata.unwrap();
    assert_eq!(md.title, Some(String::from("Red Dragon 20/5000")));
    assert_eq!(md.description, Some(String::from("20/5000")));
    assert_eq!(md.media, Some(String::from("DragonBoss.png")));
    let stats = c.get_stats(String::from("DragonBoss:3:42"));
    assert_eq!(stats, (Some(0), Some(0), Some(0), Some(Rarity::Ssr)));
}

#[test]
fn nft_mint_records_owner() {
    set_context(NearToken::from_near(1), [0; 32], 1);
    let mut c = new_contract();
    let id = String::from("custom:1:2");
    assert!(!c.is_minted(&id));
    let t = c.nft_mint(id.clone(), account("carol.near"), Default::default());
    assert_eq!(t.token_id, id);
    assert_eq!(t.owner_id, account("carol.near"));
    assert!(c.is_minted(&id));
    assert_eq!(c.get_stats(id), (None, None, None, None));
}

#[test]
fn play_requires_more_than_one_near() {
    set_context(NearToken::from_near(1), seed_of([9, 0, 0]), 1);
    let mut c = new_contract();
    assert_eq!(c.play(), Err(PlayError::InsufficientPayment));
    set_context(NearToken::from_near(2), seed_of([9, 0, 0]), 1);
    assert_eq!(c.play(), Ok(9));
}
