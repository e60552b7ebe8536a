use vstd::prelude::*;

use vstd::utf8::encode_utf8;

use crate::catalog::HeroData;
use crate::host::{sha256, sha256_of};
use crate::text::{decimal, decimal_string, has_no_colon, is_digit, lemma_decimal_digits, lemma_decimal_injective};

verus! {

/// Identity, media descriptor and display metadata of a newly generated asset.
pub struct Identity {
    pub token_id: String,
    pub media: String,
    pub media_hash: Vec<u8>,
    pub title: String,
    pub description: String,
    pub copies: u64,
    pub issued_at: String,
}

/// `"{media_key}:{entropy}:{timestamp}"`.
pub open spec fn token_id_text(media_key: Seq<char>, entropy: u8, timestamp: u64) -> Seq<char> {
    media_key + seq![':'] + decimal(entropy as nat) + seq![':'] + decimal(timestamp as nat)
}

/// `"{media_key}.png"`.
pub open spec fn media_text(media_key: Seq<char>) -> Seq<char> {
    media_key + seq!['.', 'p', 'n', 'g']
}

/// `"{power}/{health}"`.
pub open spec fn stats_text(power: u64, health: u64) -> Seq<char> {
    decimal(power as nat) + seq!['/'] + decimal(health as nat)
}

/// `"{name} {power}/{health}"`.
pub open spec fn title_text(name: Seq<char>, power: u64, health: u64) -> Seq<char> {
    name + seq![' '] + stats_text(power, health)
}

/// Builds the asset id, media reference and display metadata of a hero.
pub fn build_identity(hero: &HeroData, entropy: u8, timestamp: u64) -> (r: Identity)
    ensures
        r.token_id@ == token_id_text(hero.media_url@, entropy, timestamp),
        r.media@ == media_text(hero.media_url@),
        r.media_hash@ == sha256_of(encode_utf8(r.media@)),
        r.title@ == title_text(hero.name@, hero.power, hero.health),
        r.description@ == stats_text(hero.power, hero.health),
        r.copies == 1,
        r.issued_at@ == decimal(timestamp as nat),
{
    proof {
        reveal_strlit(":");
        reveal_strlit(".png");
        reveal_strlit("/");
        reveal_strlit(" ");
    }
    let ts = decimal_string(timestamp);
    let mut token_id = hero.media_url.clone();
    token_id.append(":");
    token_id.append(decimal_string(entropy as u64).as_str());
    token_id.append(":");
    token_id.append(ts.as_str());

    let mut media = hero.media_url.clone();
    media.append(".png");
    let media_hash = sha256(media.as_str().as_bytes());

    let mut description = decimal_string(hero.power);
    description.append("/");
    description.append(decimal_string(hero.health).as_str());

    let mut title = hero.name.clone();
    title.append(" ");
    title.append(description.as_str());

    assert(token_id@ =~= token_id_text(hero.media_url@, entropy, timestamp));
    assert(media@ =~= media_text(hero.media_url@));
    assert(title@ =~= title_text(hero.name@, hero.power, hero.health));
    Identity { token_id, media, media_hash, title, description, copies: 1, issued_at: ts }
}

proof fn lemma_split_at_last_colon(a1: Seq<char>, b1: Seq<char>, a2: Seq<char>, b2: Seq<char>)
    requires
        has_no_colon(b1),
        has_no_colon(b2),
        a1 + seq![':'] + b1 == a2 + seq![':'] + b2,
    ensures
        a1 == a2,
        b1 == b2,
{
    let s1 = a1 + seq![':'] + b1;
    let s2 = a2 + seq![':'] + b2;
    if b1.len() < b2.len() {
        let i = s1.len() - b1.len() - 1;
        assert(s1[i] == ':');
        assert(s2[i] == b2[i - a2.len() - 1]);
    } else if b2.len() < b1.len() {
        let i = s2.len() - b2.len() - 1;
        assert(s2[i] == ':');
        assert(s1[i] == b1[i - a1.len() - 1]);
    }
    assert(a1 =~= s1.subrange(0, a1.len() as int));
    assert(a2 =~= s2.subrange(0, a2.len() as int));
    assert(b1 =~= s1.subrange(a1.len() as int + 1, s1.len() as int));
    assert(b2 =~= s2.subrange(a2.len() as int + 1, s2.len() as int));
}

proof fn lemma_decimal_colon_free(n: nat)
    ensures
        has_no_colon(decimal(n)),
{
    lemma_decimal_digits(n);
    assert forall|i: int| 0 <= i < decimal(n).len() implies decimal(n)[i] != ':' by {
        assert(is_digit(decimal(n)[i]));
    }
}

/// Asset ids are injective: equal ids come from equal
/// (media key, entropy byte, timestamp) triples.
pub proof fn lemma_token_id_injective(k1: Seq<char>, e1: u8, t1: u64, k2: Seq<char>, e2: u8, t2: u64)
    requires
        token_id_text(k1, e1, t1) == token_id_text(k2, e2, t2),
    ensures
        k1 == k2,
        e1 == e2,
        t1 == t2,
{
    let d1 = decimal(e1 as nat);
    let d2 = decimal(e2 as nat);
    lemma_decimal_colon_free(e1 as nat);
    lemma_decimal_colon_free(e2 as nat);
    lemma_decimal_colon_free(t1 as nat);
    lemma_decimal_colon_free(t2 as nat);
    lemma_split_at_last_colon(k1 + seq![':'] + d1, decimal(t1 as nat), k2 + seq![':'] + d2, decimal(t2 as nat));
    lemma_split_at_last_colon(k1, d1, k2, d2);
    lemma_decimal_injective(e1 as nat, e2 as nat);
    lemma_decimal_injective(t1 as nat, t2 as nat);
}

} // verus!
