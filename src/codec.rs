use vstd::prelude::*;
use crate::digest::{md5_hex, md5_hex_of};
use crate::text::str_eq;

verus! {

/// The characters of each string.
pub open spec fn strings_view(v: Seq<String>) -> Seq<Seq<char>> {
    v.map_values(|s: String| s@)
}

/// The token form of a list of article identifiers: the digest of each.
pub open spec fn encoded(ids: Seq<Seq<char>>) -> Seq<Seq<char>> {
    ids.map_values(|s: Seq<char>| md5_hex_of(s))
}

/// Some entry of `grants` equals `hash`.
pub open spec fn contains_hash(grants: Seq<Seq<char>>, hash: Seq<char>) -> bool {
    exists|i: int| 0 <= i < grants.len() && grants[i] == hash
}

/// The one-way identifier under which an article id travels in a token.
pub fn grant_hash(article_id: &str) -> (r: String)
    ensures
        r@ == md5_hex_of(article_id@),
{
    md5_hex(article_id)
}

/// Replaces each article identifier by its digest, keeping the order.
pub fn encode_grants(article_ids: &Vec<String>) -> (r: Vec<String>)
    ensures
        strings_view(r@) == encoded(strings_view(article_ids@)),
{
    let mut r: Vec<String> = Vec::new();
    let mut i: usize = 0;
    while i < article_ids.len()
        invariant
            i <= article_ids@.len(),
            r@.len() == i,
            forall|k: int| 0 <= k < i ==> #[trigger] r@[k]@ == md5_hex_of(article_ids@[k]@),
        decreases article_ids@.len() - i,
    {
        let h = grant_hash(article_ids[i].as_str());
        r.push(h);
        i = i + 1;
    }
    assert(strings_view(r@) =~= encoded(strings_view(article_ids@)));
    r
}

/// Whether an already computed digest occurs among the hashed grants.
pub fn matches_hashed(target_hash: &str, hashed_grants: &Vec<String>) -> (r: bool)
    ensures
        r == contains_hash(strings_view(hashed_grants@), target_hash@),
{
    let mut i: usize = 0;
    while i < hashed_grants.len()
        invariant
            i <= hashed_grants@.len(),
            forall|k: int| 0 <= k < i ==> hashed_grants@[k]@ != target_hash@,
        decreases hashed_grants@.len() - i,
    {
        if str_eq(hashed_grants[i].as_str(), target_hash) {
            assert(strings_view(hashed_grants@)[i as int] == target_hash@);
            return true;
        }
        i = i + 1;
    }
    assert forall|k: int| 0 <= k < hashed_grants@.len() implies strings_view(hashed_grants@)[k] != target_hash@ by {
        assert(strings_view(hashed_grants@)[k] == hashed_grants@[k]@);
    }
    false
}

/// Whether `target_id` is among the articles whose digests are listed.
pub fn matches(target_id: &str, hashed_grants: &Vec<String>) -> (r: bool)
    ensures
        r == contains_hash(strings_view(hashed_grants@), md5_hex_of(target_id@)),
{
    let h = grant_hash(target_id);
    matches_hashed(h.as_str(), hashed_grants)
}

/// Every listed identifier matches its own encoding; an identifier whose
/// digest differs from those of all listed ones does not.
pub proof fn lemma_grants_round_trip(ids: Seq<Seq<char>>, id: Seq<char>)
    ensures
        ids.contains(id) ==> contains_hash(encoded(ids), md5_hex_of(id)),
        (forall|j: int| 0 <= j < ids.len() ==> md5_hex_of(#[trigger] ids[j]) != md5_hex_of(id))
            ==> !contains_hash(encoded(ids), md5_hex_of(id)),
{
    if ids.contains(id) {
        let j = choose|j: int| 0 <= j < ids.len() && ids[j] == id;
        assert(encoded(ids)[j] == md5_hex_of(id));
    }
    if forall|j: int| 0 <= j < ids.len() ==> md5_hex_of(#[trigger] ids[j]) != md5_hex_of(id) {
        assert forall|i: int| 0 <= i < encoded(ids).len() implies encoded(ids)[i] != md5_hex_of(id) by {
            assert(encoded(ids)[i] == md5_hex_of(ids[i]));
        }
    }
}

} // verus!
