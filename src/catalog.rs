use vstd::prelude::*;

use crate::rarity::{covers, lemma_partition_exactly_one, partitions_byte, Band, Rarity};

verus! {

/// A catalog entry: display name, media key, base stats and tier.
pub struct HeroData {
    pub name: String,
    pub media_url: String,
    pub power: u64,
    pub health: u64,
    pub rarity: Rarity,
}

/// The abstract content of a `HeroData`.
pub struct HeroView {
    pub name: Seq<char>,
    pub media_url: Seq<char>,
    pub power: u64,
    pub health: u64,
    pub rarity: Rarity,
}

impl View for HeroData {
    type V = HeroView;

    open spec fn view(&self) -> HeroView {
        HeroView {
            name: self.name@,
            media_url: self.media_url@,
            power: self.power,
            health: self.health,
            rarity: self.rarity,
        }
    }
}

pub open spec fn entry(lo: int, hi: int, name: &str, media_url: &str, power: u64, health: u64, rarity: Rarity) -> Band<HeroView> {
    Band { lo, hi, item: HeroView { name: name@, media_url: media_url@, power, health, rarity } }
}

/// The hero catalog: for each tier, the byte ranges of its variants.
pub open spec fn catalog(r: Rarity) -> Seq<Band<HeroView>> {
    match r {
        Rarity::Common => seq![
            entry(0, 41, "Krong", "UndeadArcherDD", 20, 50, Rarity::Common),
            entry(42, 83, "Freya", "DemonRangeDD", 75, 440, Rarity::Common),
            entry(84, 125, "Morg", "DemonTank", 50, 1000, Rarity::Common),
            entry(126, 168, "Slay", "HumanMeleeDD", 10, 400, Rarity::Common),
            entry(169, 211, "Warg", "Warg", 54, 1200, Rarity::Common),
            entry(212, 255, "White Wolf", "WhiteWolf", 50, 1400, Rarity::Common),
        ],
        Rarity::Rare => seq![
            entry(0, 31, "Helga", "UndeadHeal", 20, 50, Rarity::Rare),
            entry(32, 63, "Chi-chi", "UndeadSpecialist", 10, 50, Rarity::Rare),
            entry(64, 95, "Drakara", "DemonHeal", 100, 500, Rarity::Rare),
            entry(96, 127, "Hardy", "DemonMeleeDD", 90, 630, Rarity::Rare),
            entry(128, 159, "Bronks", "HumanTank", 10, 400, Rarity::Rare),
            entry(160, 191, "Timina", "HumanSpecialist", 10, 400, Rarity::Rare),
            entry(192, 223, "Gray wolf", "NeutralWolf1", 75, 670, Rarity::Rare),
            entry(224, 255, "Porcupine", "Porcupine", 45, 485, Rarity::Rare),
        ],
        Rarity::Epic => seq![
            entry(0, 84, "Unknown", "UndeadMeleeDD", 20, 5000, Rarity::Epic),
            entry(85, 169, "Berenika", "HumanHeal", 10, 400, Rarity::Epic),
            entry(170, 255, "Black Bear", "BlackBear", 55, 1050, Rarity::Epic),
        ],
        Rarity::Ssr => seq![
            entry(0, 41, "Dead King", "UndeadTank", 20, 5000, Rarity::Ssr),
            entry(42, 83, "Luciy", "DemonSpecialist", 117, 500, Rarity::Ssr),
            entry(84, 125, "Iona", "HumanRangeDD", 10, 400, Rarity::Ssr),
            entry(126, 168, "Troll", "NeutralTroll", 50, 1600, Rarity::Ssr),
            entry(169, 211, "Wolf Whelp", "WolfWhelp", 50, 300, Rarity::Ssr),
            entry(212, 255, "Red Dragon", "DragonBoss", 20, 5000, Rarity::Ssr),
        ],
    }
}

fn make_hero(name: &str, media_url: &str, power: u64, health: u64, rarity: Rarity) -> (h: HeroData)
    ensures
        h@ == (HeroView { name: name@, media_url: media_url@, power, health, rarity }),
{
    HeroData {
        name: String::from_str(name),
        media_url: String::from_str(media_url),
        power,
        health,
        rarity,
    }
}

/// Position, in the tier's list, of the variant whose range holds `b`.
fn variant_index(rarity: Rarity, b: u8) -> (i: usize)
    ensures
        i < catalog(rarity).len(),
        covers(catalog(rarity)[i as int], b as int),
{
    match rarity {
        Rarity::Common => {
            if b <= 41 {
                0
            } else if b <= 83 {
                1
            } else if b <= 125 {
                2
            } else if b <= 168 {
                3
            } else if b <= 211 {
                4
            } else {
                5
            }
        },
        Rarity::Rare => {
            if b <= 31 {
                0
            } else if b <= 63 {
                1
            } else if b <= 95 {
                2
            } else if b <= 127 {
                3
            } else if b <= 159 {
                4
            } else if b <= 191 {
                5
            } else if b <= 223 {
                6
            } else {
                7
            }
        },
        Rarity::Epic => {
            if b <= 84 {
                0
            } else if b <= 169 {
                1
            } else {
                2
            }
        },
        Rarity::Ssr => {
            if b <= 41 {
                0
            } else if b <= 83 {
                1
            } else if b <= 125 {
                2
            } else if b <= 168 {
                3
            } else if b <= 211 {
                4
            } else {
                5
            }
        },
    }
}

fn variant_at(rarity: Rarity, i: usize) -> (h: HeroData)
    requires
        i < catalog(rarity).len(),
    ensures
        h@ == catalog(rarity)[i as int].item,
{
    match rarity {
        Rarity::Common => {
            if i == 0 {
                make_hero("Krong", "UndeadArcherDD", 20, 50, Rarity::Common)
            } else if i == 1 {
                make_hero("Freya", "DemonRangeDD", 75, 440, Rarity::Common)
            } else if i == 2 {
                make_hero("Morg", "DemonTank", 50, 1000, Rarity::Common)
            } else if i == 3 {
                make_hero("Slay", "HumanMeleeDD", 10, 400, Rarity::Common)
            } else if i == 4 {
                make_hero("Warg", "Warg", 54, 1200, Rarity::Common)
            } else {
                make_hero("White Wolf", "WhiteWolf", 50, 1400, Rarity::Common)
            }
        },
        Rarity::Rare => {
            if i == 0 {
                make_hero("Helga", "UndeadHeal", 20, 50, Rarity::Rare)
            } else if i == 1 {
                make_hero("Chi-chi", "UndeadSpecialist", 10, 50, Rarity::Rare)
            } else if i == 2 {
                make_hero("Drakara", "DemonHeal", 100, 500, Rarity::Rare)
            } else if i == 3 {
                make_hero("Hardy", "DemonMeleeDD", 90, 630, Rarity::Rare)
            } else if i == 4 {
                make_hero("Bronks", "HumanTank", 10, 400, Rarity::Rare)
            } else if i == 5 {
                make_hero("Timina", "HumanSpecialist", 10, 400, Rarity::Rare)
            } else if i == 6 {
                make_hero("Gray wolf", "NeutralWolf1", 75, 670, Rarity::Rare)
            } else {
                make_hero("Porcupine", "Porcupine", 45, 485, Rarity::Rare)
            }
        },
        Rarity::Epic => {
            if i == 0 {
                make_hero("Unknown", "UndeadMeleeDD", 20, 5000, Rarity::Epic)
            } else if i == 1 {
                make_hero("Berenika", "HumanHeal", 10, 400, Rarity::Epic)
            } else {
                make_hero("Black Bear", "BlackBear", 55, 1050, Rarity::Epic)
            }
        },
        Rarity::Ssr => {
            if i == 0 {
                make_hero("Dead King", "UndeadTank", 20, 5000, Rarity::Ssr)
            } else if i == 1 {
                make_hero("Luciy", "DemonSpecialist", 117, 500, Rarity::Ssr)
            } else if i == 2 {
                make_hero("Iona", "HumanRangeDD", 10, 400, Rarity::Ssr)
            } else if i == 3 {
                make_hero("Troll", "NeutralTroll", 50, 1600, Rarity::Ssr)
            } else if i == 4 {
                make_hero("Wolf Whelp", "WolfWhelp", 50, 300, Rarity::Ssr)
            } else {
                make_hero("Red Dragon", "DragonBoss", 20, 5000, Rarity::Ssr)
            }
        },
    }
}

/// The variant of `rarity` whose byte range holds `b`.
pub open spec fn variant_of(rarity: Rarity, b: u8) -> HeroView {
    let t = catalog(rarity);
    t[choose|i: int| 0 <= i < t.len() && covers(#[trigger] t[i], b as int)].item
}

/// Picks the variant of `rarity` whose byte range holds `b`.
pub fn select_variant(rarity: Rarity, b: u8) -> (h: HeroData)
    ensures
        h@ == variant_of(rarity, b),
        h.rarity == rarity,
{
    let i = variant_index(rarity, b);
    let h = variant_at(rarity, i);
    proof {
        let t = catalog(rarity);
        assert(partitions_byte(t));
        lemma_partition_exactly_one(t, b as int);
        assert(covers(t[i as int], b as int));
        let j = choose|j: int| 0 <= j < t.len() && covers(#[trigger] t[j], b as int);
        assert(j == i);
    }
    h
}

/// Every tier's ranges partition `0..=255`, each byte falls in exactly one
/// range, and every variant of a tier carries that tier.
pub proof fn lemma_catalog_partition(rarity: Rarity, b: u8)
    ensures
        partitions_byte(catalog(rarity)),
        exists|i: int| 0 <= i < catalog(rarity).len() && covers(#[trigger] catalog(rarity)[i], b as int),
        forall|i: int, j: int|
            0 <= i < catalog(rarity).len() && 0 <= j < catalog(rarity).len() && covers(
                #[trigger] catalog(rarity)[i],
                b as int,
            ) && covers(#[trigger] catalog(rarity)[j], b as int) ==> i == j,
        forall|i: int| 0 <= i < catalog(rarity).len() ==> (#[trigger] catalog(rarity)[i]).item.rarity == rarity,
        forall|i: int|
            0 <= i < catalog(rarity).len() && covers(#[trigger] catalog(rarity)[i], b as int)
                ==> catalog(rarity)[i].item == variant_of(rarity, b),
{
    assert(partitions_byte(catalog(rarity)));
    lemma_partition_exactly_one(catalog(rarity), b as int);
}

} // verus!
