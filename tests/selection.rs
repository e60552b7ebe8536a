use hero_forge::{build_identity, decimal_string, roll, select_rarity, select_variant};
use hero_forge::{PlayError, Rarity, ONE_NEAR};

#[test]
fn entropy_zero_selects_first_common() {
    assert_eq!(select_rarity(0), Rarity::Common);
    let h = select_variant(Rarity::Common, 0);
    assert_eq!(h.name, "Krong");
    assert_eq!(h.media_url, "UndeadArcherDD");
    assert_eq!(h.power, 20);
    assert_eq!(h.health, 50);
    assert_eq!(h.rarity, Rarity::Common);
}

#[test]
fn entropy_max_selects_last_legendary() {
    assert_eq!(select_rarity(255), Rarity::Ssr);
    let h = select_variant(Rarity::Ssr, 255);
    assert_eq!(h.name, "Red Dragon");
    assert_eq!(h.media_url, "DragonBoss");
    assert_eq!(h.power, 20);
    assert_eq!(h.health, 5000);
}

#[test]
fn rarity_range_edges() {
    assert_eq!(select_rarity(214), Rarity::Common);
    assert_eq!(select_rarity(215), Rarity::Rare);
    assert_eq!(select_rarity(240), Rarity::Rare);
    assert_eq!(select_rarity(241), Rarity::Epic);
    assert_eq!(select_rarity(253), Rarity::Epic);
    assert_eq!(select_rarity(254), Rarity::Ssr);
}

#[test]
fn rarity_widths_cover_all_bytes() {
    let mut counts = [0u32; 4];
    for b in 0..=255u8 {
        counts[select_rarity(b).code() as usize] += 1;
    }
    assert_eq!(counts, [215, 26, 13, 2]);
    assert_eq!(counts.iter().sum::<u32>(), 256);
}

#[test]
fn every_byte_selects_a_variant_of_its_tier() {
    let tiers = [(Rarity::Common, 6), (Rarity::Rare, 8), (Rarity::Epic, 3), (Rarity::Ssr, 6)];
    for (tier, n) in tiers {
        let mut names: Vec<String> = Vec::new();
        for b in 0..=255u8 {
            let h = select_variant(tier, b);
            assert_eq!(h.rarity, tier);
            if names.last() != Some(&h.name) {
                assert!(!names.contains(&h.name));
                names.push(h.name.clone());
            }
        }
        assert_eq!(names.len(), n);
    }
}

#[test]
fn variant_range_edges() {
    assert_eq!(select_variant(Rarity::Common, 41).name, "Krong");
    assert_eq!(select_variant(Rarity::Common, 42).name, "Freya");
    assert_eq!(select_variant(Rarity::Common, 211).name, "Warg");
    assert_eq!(select_variant(Rarity::Common, 212).name, "White Wolf");
    assert_eq!(select_variant(Rarity::Rare, 0).name, "Helga");
    assert_eq!(select_variant(Rarity::Rare, 223).name, "Gray wolf");
    assert_eq!(select_variant(Rarity::Rare, 224).name, "Porcupine");
    assert_eq!(select_variant(Rarity::Rare, 255).name, "Porcupine");
    assert_eq!(select_variant(Rarity::Epic, 84).name, "Unknown");
    assert_eq!(select_variant(Rarity::Epic, 85).name, "Berenika");
    assert_eq!(select_variant(Rarity::Epic, 169).name, "Berenika");
    assert_eq!(select_variant(Rarity::Epic, 170).name, "Black Bear");
    assert_eq!(select_variant(Rarity::Ssr, 0).name, "Dead King");
    assert_eq!(select_variant(Rarity::Ssr, 42).media_url, "DemonSpecialist");
    assert_eq!(select_variant(Rarity::Ssr, 42).power, 117);
}

#[test]
fn rarity_codes_round_trip() {
    for r in [Rarity::Common, Rarity::Rare, Rarity::Epic, Rarity::Ssr] {
        assert_eq!(Rarity::from_code(r.code()), Some(r));
    }
    assert_eq!(Rarity::Ssr.code(), 3);
    assert_eq!(Rarity::from_code(4), None);
}

#[test]
fn decimal_notation() {
    assert_eq!(decimal_string(0), "0");
    assert_eq!(decimal_string(7), "7");
    assert_eq!(decimal_string(10), "10");
    assert_eq!(decimal_string(1400), "1400");
    assert_eq!(decimal_string(u64::MAX), "18446744073709551615");
}

#[test]
fn identity_fields() {
    let hero = select_variant(Rarity::Common, 0);
    let id = build_identity(&hero, 7, 1_650_000_000_123);
    assert_eq!(id.token_id, "UndeadArcherDD:7:1650000000123");
    assert_eq!(id.media, "UndeadArcherDD.png");
    assert_eq!(id.title, "Krong 20/50");
    assert_eq!(id.description, "20/50");
    assert_eq!(id.copies, 1);
    assert_eq!(id.issued_at, "1650000000123");
    assert_eq!(id.media_hash.len(), 32);
    assert_eq!(id.media_hash, near_sdk::env::sha256(b"UndeadArcherDD.png"));
    assert_ne!(id.media_hash, b"UndeadArcherDD.png".to_vec());
}

#[test]
fn identity_of_legendary_hero() {
    let hero = select_variant(Rarity::Ssr, 50);
    let id = build_identity(&hero, 255, 0);
    assert_eq!(id.token_id, "DemonSpecialist:255:0");
    assert_eq!(id.title, "Luciy 117/500");
    assert_eq!(id.description, "117/500");
}

#[test]
fn same_instant_and_entropy_collide() {
    let hero = select_variant(Rarity::Rare, 100);
    let a = build_identity(&hero, 9, 77);
    let b = build_identity(&hero, 9, 77);
    assert_eq!(a.token_id, b.token_id);
}

#[test]
fn distinct_triples_give_distinct_ids() {
    let hero = select_variant(Rarity::Common, 0);
    let a = build_identity(&hero, 1, 23);
    let b = build_identity(&hero, 12, 3);
    let c = build_identity(&select_variant(Rarity::Common, 42), 1, 23);
    assert_ne!(a.token_id, b.token_id);
    assert_ne!(a.token_id, c.token_id);
}

#[test]
fn roll_needs_more_than_one_near() {
    assert_eq!(roll(ONE_NEAR, &vec![5]), Err(PlayError::InsufficientPayment));
    assert_eq!(roll(0, &vec![5]), Err(PlayError::InsufficientPayment));
    assert_eq!(roll(ONE_NEAR + 1, &vec![5, 6]), Ok(5));
    assert_eq!(roll(ONE_NEAR + 1, &vec![]), Err(PlayError::EntropyExhausted));
}
