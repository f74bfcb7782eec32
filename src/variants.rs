use vstd::prelude::*;
use crate::access::{AuthLevel, SessionStatus, rank, level_le, level_lt};
use crate::digest::{content_hash, md5_hex_of};

verus! {

/// Every earlier threshold lies strictly below every later one.
pub open spec fn strictly_increasing(levels: Seq<AuthLevel>) -> bool {
    forall|i: int, j: int| 0 <= i < j < levels.len() ==> level_lt(#[trigger] levels[i], #[trigger] levels[j])
}

/// How many thresholds lie at or below `l`.
pub open spec fn count_le(levels: Seq<AuthLevel>, l: AuthLevel) -> nat
    decreases levels.len(),
{
    if levels.len() == 0 {
        0
    } else {
        count_le(levels.drop_last(), l) + if level_le(levels.last(), l) { 1nat } else { 0nat }
    }
}

/// The variant served at level `l`: the highest threshold not above `l`, and
/// the first variant where every threshold lies above `l`.
pub open spec fn level_index(levels: Seq<AuthLevel>, l: AuthLevel) -> int {
    if count_le(levels, l) == 0 {
        0
    } else {
        count_le(levels, l) - 1
    }
}

pub proof fn lemma_count_le_bounded(levels: Seq<AuthLevel>, l: AuthLevel)
    ensures
        count_le(levels, l) <= levels.len(),
    decreases levels.len(),
{
    if levels.len() > 0 {
        lemma_count_le_bounded(levels.drop_last(), l);
    }
}

/// On increasing thresholds, those at or below `l` are exactly a prefix.
pub proof fn lemma_count_le_prefix(levels: Seq<AuthLevel>, l: AuthLevel)
    requires
        strictly_increasing(levels),
    ensures
        forall|i: int| 0 <= i < levels.len() ==> (level_le(#[trigger] levels[i], l) <==> i < count_le(levels, l)),
    decreases levels.len(),
{
    if levels.len() > 0 {
        let init = levels.drop_last();
        assert(strictly_increasing(init)) by {
            assert forall|i: int, j: int| 0 <= i < j < init.len() implies level_lt(#[trigger] init[i], #[trigger] init[j]) by {
                assert(init[i] == levels[i] && init[j] == levels[j]);
            }
        }
        lemma_count_le_prefix(init, l);
        lemma_count_le_bounded(init, l);
        let n = levels.len() - 1;
        assert forall|i: int| 0 <= i < levels.len() implies (level_le(#[trigger] levels[i], l) <==> i < count_le(levels, l)) by {
            if i < n {
                assert(init[i] == levels[i]);
                if level_le(levels.last(), l) {
                    assert(level_lt(levels[i], levels[n]));
                }
            }
        }
    }
}

/// A higher level never selects an earlier variant.
pub proof fn lemma_count_le_monotone(levels: Seq<AuthLevel>, l1: AuthLevel, l2: AuthLevel)
    requires
        level_le(l1, l2),
    ensures
        count_le(levels, l1) <= count_le(levels, l2),
    decreases levels.len(),
{
    if levels.len() > 0 {
        lemma_count_le_monotone(levels.drop_last(), l1, l2);
    }
}

/// A rendering together with its cache validator.
pub struct ContentAndHash {
    pub content: String,
    pub hash: String,
}

/// Why a variant set could not be built.
#[derive(Clone, Copy, Debug, PartialEq, Eq, Structural)]
pub enum VariantSetError {
    /// No variant was given.
    NoVariants,
    /// The thresholds do not strictly increase.
    ThresholdsNotIncreasing,
}

/// The precomputed renderings of one content item, one per level threshold,
/// with the digest of each. Immutable once built.
pub struct AuthLevelConditionalObject {
    auth_levels: Vec<AuthLevel>,
    contents: Vec<String>,
    hashes: Vec<String>,
}

impl AuthLevelConditionalObject {
    pub closed spec fn levels(&self) -> Seq<AuthLevel> {
        self.auth_levels@
    }

    pub closed spec fn content_at(&self, i: int) -> Seq<char> {
        self.contents@[i]@
    }

    pub closed spec fn hash_at(&self, i: int) -> Seq<char> {
        self.hashes@[i]@
    }

    /// Thresholds strictly increase, there is at least one variant, each
    /// variant has a content and a hash, and each hash digests its content.
    pub closed spec fn wf(&self) -> bool {
        &&& self.auth_levels@.len() >= 1
        &&& self.contents@.len() == self.auth_levels@.len()
        &&& self.hashes@.len() == self.auth_levels@.len()
        &&& strictly_increasing(self.auth_levels@)
        &&& forall|i: int| 0 <= i < self.hashes@.len() ==> #[trigger] self.hashes@[i]@ == md5_hex_of(self.contents@[i]@)
    }

    /// What well-formedness gives a caller: at least one variant, strictly
    /// increasing thresholds, and each hash the digest of its content.
    pub proof fn lemma_wf_facts(&self)
        requires
            self.wf(),
        ensures
            self.levels().len() >= 1,
            strictly_increasing(self.levels()),
            forall|i: int| 0 <= i < self.levels().len() ==> #[trigger] self.hash_at(i) == md5_hex_of(self.content_at(i)),
    {
    }

    pub open spec fn len(&self) -> nat {
        self.levels().len()
    }

    /// Builds the variant set; the thresholds must strictly increase, and
    /// nothing is reordered.
    pub fn new(items: Vec<(AuthLevel, String)>) -> (r: Result<AuthLevelConditionalObject, VariantSetError>)
        ensures
            items@.len() == 0 ==> r == Err::<AuthLevelConditionalObject, VariantSetError>(VariantSetError::NoVariants),
            items@.len() > 0 && !strictly_increasing(items@.map_values(|p: (AuthLevel, String)| p.0))
                ==> r == Err::<AuthLevelConditionalObject, VariantSetError>(VariantSetError::ThresholdsNotIncreasing),
            items@.len() > 0 && strictly_increasing(items@.map_values(|p: (AuthLevel, String)| p.0)) ==> r is Ok,
            r matches Ok(o) ==> {
                &&& o.wf()
                &&& o.levels() == items@.map_values(|p: (AuthLevel, String)| p.0)
                &&& forall|i: int| 0 <= i < items@.len() ==> #[trigger] o.content_at(i) == items@[i].1@
                &&& forall|i: int| 0 <= i < items@.len() ==> #[trigger] o.hash_at(i) == md5_hex_of(items@[i].1@)
            },
    {
        let ghost lv = items@.map_values(|p: (AuthLevel, String)| p.0);
        if items.len() == 0 {
            return Err(VariantSetError::NoVariants);
        }
        let mut auth_levels: Vec<AuthLevel> = Vec::new();
        let mut contents: Vec<String> = Vec::new();
        let mut hashes: Vec<String> = Vec::new();
        let mut i: usize = 0;
        while i < items.len()
            invariant
                lv == items@.map_values(|p: (AuthLevel, String)| p.0),
                i <= items@.len(),
                auth_levels@ == lv.subrange(0, i as int),
                contents@.len() == i,
                hashes@.len() == i,
                strictly_increasing(auth_levels@),
                forall|k: int| 0 <= k < i ==> #[trigger] contents@[k]@ == items@[k].1@,
                forall|k: int| 0 <= k < i ==> #[trigger] hashes@[k]@ == md5_hex_of(contents@[k]@),
            decreases items@.len() - i,
        {
            let level = items[i].0;
            if i > 0 && items[i - 1].0.as_u8() >= level.as_u8() {
                assert(lv[i - 1] == items@[i - 1].0 && lv[i as int] == items@[i as int].0);
                assert(!strictly_increasing(lv));
                return Err(VariantSetError::ThresholdsNotIncreasing);
            }
            let content = items[i].1.clone();
            let hash = content_hash(content.as_str());
            proof {
                if i > 0 {
                    assert(auth_levels@[i - 1] == items@[i - 1].0);
                }
            }
            auth_levels.push(level);
            contents.push(content);
            hashes.push(hash);
            assert(auth_levels@ == lv.subrange(0, i + 1));
            i = i + 1;
        }
        assert(auth_levels@ == lv);
        let r = AuthLevelConditionalObject { auth_levels, contents, hashes };
        Ok(r)
    }

    /// A single variant served at every level.
    pub fn new_with_single_level(content: String) -> (r: AuthLevelConditionalObject)
        ensures
            r.wf(),
            r.levels() == seq![AuthLevel::NoAuth],
            r.content_at(0) == content@,
    {
        let hash = content_hash(content.as_str());
        let auth_levels = vec![AuthLevel::NoAuth];
        let contents = vec![content];
        let hashes = vec![hash];
        AuthLevelConditionalObject { auth_levels, contents, hashes }
    }

    /// Index of the variant served at `auth_level`: the number of thresholds
    /// at or below it, minus one; the first variant where there is none.
    pub fn get_auth_level_index(&self, auth_level: &AuthLevel) -> (r: usize)
        requires
            self.wf(),
        ensures
            r as int == level_index(self.levels(), *auth_level),
            r < self.len(),
            count_le(self.levels(), *auth_level) > 0 ==> level_le(self.levels()[r as int], *auth_level),
            r + 1 < self.len() ==> !level_le(self.levels()[r + 1], *auth_level),
    {
        let mut count: usize = 0;
        let mut i: usize = 0;
        while i < self.auth_levels.len()
            invariant
                i <= self.auth_levels@.len(),
                count == count_le(self.auth_levels@.subrange(0, i as int), *auth_level),
                count <= i,
            decreases self.auth_levels@.len() - i,
        {
            assert(self.auth_levels@.subrange(0, i + 1).drop_last() == self.auth_levels@.subrange(0, i as int));
            if self.auth_levels[i].as_u8() <= auth_level.as_u8() {
                count = count + 1;
            }
            i = i + 1;
        }
        assert(self.auth_levels@.subrange(0, i as int) == self.auth_levels@);
        proof {
            lemma_count_le_prefix(self.levels(), *auth_level);
            lemma_count_le_bounded(self.levels(), *auth_level);
        }
        if count == 0 {
            0
        } else {
            count - 1
        }
    }

    /// The rendering served at `auth_level`.
    pub fn get_with_auth_level(&self, auth_level: &AuthLevel) -> (r: String)
        requires
            self.wf(),
        ensures
            r@ == self.content_at(level_index(self.levels(), *auth_level)),
    {
        let idx = self.get_auth_level_index(auth_level);
        self.contents[idx].clone()
    }

    /// The digest of the rendering served at `auth_level`.
    pub fn get_hash_with_auth_level(&self, auth_level: &AuthLevel) -> (r: String)
        requires
            self.wf(),
        ensures
            r@ == self.hash_at(level_index(self.levels(), *auth_level)),
            r@ == md5_hex_of(self.content_at(level_index(self.levels(), *auth_level))),
    {
        let idx = self.get_auth_level_index(auth_level);
        self.hashes[idx].clone()
    }

    /// The rendering for a request's resolved level.
    pub fn get(&self, session_status: &SessionStatus) -> (r: String)
        requires
            self.wf(),
        ensures
            r@ == self.content_at(level_index(self.levels(), session_status.auth_level)),
    {
        self.get_with_auth_level(&session_status.auth_level)
    }

    /// The digest of the rendering for a request's resolved level.
    pub fn get_hash(&self, session_status: &SessionStatus) -> (r: String)
        requires
            self.wf(),
        ensures
            r@ == self.hash_at(level_index(self.levels(), session_status.auth_level)),
    {
        self.get_hash_with_auth_level(&session_status.auth_level)
    }

    /// The rendering and its digest for a request's resolved level.
    pub fn get_with_hash(&self, session_status: &SessionStatus) -> (r: ContentAndHash)
        requires
            self.wf(),
        ensures
            r.content@ == self.content_at(level_index(self.levels(), session_status.auth_level)),
            r.hash@ == self.hash_at(level_index(self.levels(), session_status.auth_level)),
            r.hash@ == md5_hex_of(r.content@),
    {
        let idx = self.get_auth_level_index(&session_status.auth_level);
        ContentAndHash { content: self.contents[idx].clone(), hash: self.hashes[idx].clone() }
    }

    /// Raising the level never selects a less privileged variant: the
    /// threshold of the variant served does not decrease.
    pub proof fn lemma_resolve_monotone(&self, l1: AuthLevel, l2: AuthLevel)
        requires
            self.wf(),
            level_le(l1, l2),
        ensures
            level_index(self.levels(), l1) <= level_index(self.levels(), l2),
            level_le(self.levels()[level_index(self.levels(), l1)], self.levels()[level_index(self.levels(), l2)]),
    {
        lemma_count_le_monotone(self.levels(), l1, l2);
        lemma_count_le_bounded(self.levels(), l2);
        let i = level_index(self.levels(), l1);
        let j = level_index(self.levels(), l2);
        if i < j {
            assert(level_lt(self.levels()[i], self.levels()[j]));
        }
    }
}

/// Thresholds given out of order make construction fail rather than be
/// reordered.
pub proof fn lemma_out_of_order_rejected(a: AuthLevel, b: AuthLevel)
    requires
        !level_lt(a, b),
    ensures
        !strictly_increasing(seq![a, b]),
{
    assert(seq![a, b][0] == a && seq![a, b][1] == b);
}

} // verus!
