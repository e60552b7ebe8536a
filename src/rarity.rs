use vstd::prelude::*;

verus! {

/// Scarcity tier of a hero. `Ssr` is the legendary tier.
#[derive(PartialEq, Eq, Structural, Clone, Copy, Debug)]
pub enum Rarity {
    Common,
    Rare,
    Epic,
    Ssr,
}

/// An inclusive range `[lo, hi]` of byte values labelled with an item.
pub struct Band<T> {
    pub lo: int,
    pub hi: int,
    pub item: T,
}

pub open spec fn covers<T>(b: Band<T>, x: int) -> bool {
    b.lo <= x <= b.hi
}

/// The bands are non-empty, consecutive, and together span exactly `0..=255`.
pub open spec fn partitions_byte<T>(t: Seq<Band<T>>) -> bool {
    &&& t.len() > 0
    &&& t[0].lo == 0
    &&& t.last().hi == 255
    &&& forall|i: int| 0 <= i < t.len() ==> #[trigger] t[i].lo <= t[i].hi
    &&& forall|i: int| 0 < i < t.len() ==> #[trigger] t[i].lo == t[i - 1].hi + 1
}

/// Sum of the widths of all bands.
pub open spec fn total_width<T>(t: Seq<Band<T>>) -> int
    decreases t.len(),
{
    if t.len() == 0 {
        0
    } else {
        total_width(t.drop_last()) + (t.last().hi - t.last().lo + 1)
    }
}

proof fn lemma_bands_ordered<T>(t: Seq<Band<T>>, i: int, j: int)
    requires
        partitions_byte(t),
        0 <= i < j < t.len(),
    ensures
        t[i].hi < t[j].lo,
    decreases j - i,
{
    assert(t[j].lo == t[j - 1].hi + 1);
    if i < j - 1 {
        lemma_bands_ordered(t, i, j - 1);
        assert(t[j - 1].lo <= t[j - 1].hi);
    }
}

proof fn lemma_prefix_covered<T>(t: Seq<Band<T>>, k: int, x: int)
    requires
        partitions_byte(t),
        0 <= k < t.len(),
        0 <= x <= t[k].hi,
    ensures
        exists|i: int| 0 <= i <= k && covers(#[trigger] t[i], x),
    decreases k,
{
    if x >= t[k].lo {
        assert(covers(t[k], x));
    } else {
        assert(k > 0);
        assert(t[k].lo == t[k - 1].hi + 1);
        lemma_prefix_covered(t, k - 1, x);
        let i = choose|i: int| 0 <= i <= k - 1 && covers(#[trigger] t[i], x);
        assert(0 <= i <= k && covers(t[i], x));
    }
}

/// Every byte value lies in exactly one band of a partition of `0..=255`.
pub proof fn lemma_partition_exactly_one<T>(t: Seq<Band<T>>, x: int)
    requires
        partitions_byte(t),
        0 <= x <= 255,
    ensures
        exists|i: int| 0 <= i < t.len() && covers(#[trigger] t[i], x),
        forall|i: int, j: int|
            0 <= i < t.len() && 0 <= j < t.len() && covers(#[trigger] t[i], x) && covers(
                #[trigger] t[j],
                x,
            ) ==> i == j,
{
    lemma_prefix_covered(t, t.len() - 1, x);
    assert forall|i: int, j: int|
        0 <= i < t.len() && 0 <= j < t.len() && covers(#[trigger] t[i], x) && covers(
            #[trigger] t[j],
            x,
        ) implies i == j by {
        if i < j {
            lemma_bands_ordered(t, i, j);
        } else if j < i {
            lemma_bands_ordered(t, j, i);
        }
    }
}

proof fn lemma_total_width_prefix<T>(t: Seq<Band<T>>, k: int)
    requires
        partitions_byte(t),
        0 < k <= t.len(),
    ensures
        total_width(t.subrange(0, k)) == t[k - 1].hi + 1,
    decreases k,
{
    let s = t.subrange(0, k);
    assert(s.drop_last() =~= t.subrange(0, k - 1));
    assert(s.last() == t[k - 1]);
    if k > 1 {
        lemma_total_width_prefix(t, k - 1);
        assert(t[k - 1].lo == t[k - 2].hi + 1);
    } else {
        assert(total_width(s.drop_last()) == 0);
    }
}

/// The widths of a partition of `0..=255` add up to 256.
pub proof fn lemma_partition_width<T>(t: Seq<Band<T>>)
    requires
        partitions_byte(t),
    ensures
        total_width(t) == 256,
{
    lemma_total_width_prefix(t, t.len() as int);
    assert(t.subrange(0, t.len() as int) =~= t);
}

/// The rarity table: which byte values select which tier.
pub open spec fn rarity_table() -> Seq<Band<Rarity>> {
    seq![
        Band { lo: 0, hi: 214, item: Rarity::Common },
        Band { lo: 215, hi: 240, item: Rarity::Rare },
        Band { lo: 241, hi: 253, item: Rarity::Epic },
        Band { lo: 254, hi: 255, item: Rarity::Ssr },
    ]
}

/// The tier that an entropy byte selects.
pub open spec fn rarity_of(b: u8) -> Rarity {
    if b <= 214 {
        Rarity::Common
    } else if b <= 240 {
        Rarity::Rare
    } else if b <= 253 {
        Rarity::Epic
    } else {
        Rarity::Ssr
    }
}

/// Maps one entropy byte to a rarity tier.
pub fn select_rarity(b: u8) -> (r: Rarity)
    ensures
        r == rarity_of(b),
{
    if b <= 214 {
        Rarity::Common
    } else if b <= 240 {
        Rarity::Rare
    } else if b <= 253 {
        Rarity::Epic
    } else {
        Rarity::Ssr
    }
}

/// The rarity table partitions the byte range (widths sum to 256), and every
/// byte selects the tier of the one band that holds it.
pub proof fn lemma_rarity_partition(b: u8)
    ensures
        partitions_byte(rarity_table()),
        total_width(rarity_table()) == 256,
        exists|i: int|
            0 <= i < rarity_table().len() && covers(#[trigger] rarity_table()[i], b as int)
                && rarity_table()[i].item == rarity_of(b),
        forall|i: int|
            0 <= i < rarity_table().len() && covers(#[trigger] rarity_table()[i], b as int)
                ==> rarity_table()[i].item == rarity_of(b),
{
    let t = rarity_table();
    assert(partitions_byte(t));
    lemma_partition_width(t);
    lemma_partition_exactly_one(t, b as int);
    let i = if b <= 214 { 0int } else if b <= 240 { 1int } else if b <= 253 { 2int } else { 3int };
    assert(covers(t[i], b as int) && t[i].item == rarity_of(b));
}

/// Storage code of a tier: its position in declaration order.
pub open spec fn rarity_code_spec(r: Rarity) -> u64 {
    match r {
        Rarity::Common => 0,
        Rarity::Rare => 1,
        Rarity::Epic => 2,
        Rarity::Ssr => 3,
    }
}

/// The tier stored under a code, if the code is one.
pub open spec fn rarity_from_code_spec(c: u64) -> Option<Rarity> {
    if c == 0 {
        Some(Rarity::Common)
    } else if c == 1 {
        Some(Rarity::Rare)
    } else if c == 2 {
        Some(Rarity::Epic)
    } else if c == 3 {
        Some(Rarity::Ssr)
    } else {
        None
    }
}

impl Rarity {
    pub fn code(&self) -> (c: u64)
        ensures
            c == rarity_code_spec(*self),
    {
        match self {
            Rarity::Common => 0,
            Rarity::Rare => 1,
            Rarity::Epic => 2,
            Rarity::Ssr => 3,
        }
    }

    pub fn from_code(c: u64) -> (r: Option<Rarity>)
        ensures
            r == rarity_from_code_spec(c),
    {
        if c == 0 {
            Some(Rarity::Common)
        } else if c == 1 {
            Some(Rarity::Rare)
        } else if c == 2 {
            Some(Rarity::Epic)
        } else if c == 3 {
            Some(Rarity::Ssr)
        } else {
            None
        }
    }
}

/// Decoding a tier's code gives the tier back.
pub proof fn lemma_code_round_trip(r: Rarity)
    ensures
        rarity_from_code_spec(rarity_code_spec(r)) == Some(r),
{
}

} // verus!
