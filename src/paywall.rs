use vstd::prelude::*;
use crate::access::{AuthLevel, SessionStatus};
use crate::article::{PaywallArticle, paywall_fields};
use crate::digest::md5_hex_of;
use crate::text::str_eq;
use crate::variants::{AuthLevelConditionalObject, ContentAndHash, VariantSetError, level_index, strictly_increasing};

verus! {

/// A content item: its variants and, if it is sold, what is sold.
pub struct PaywallItem {
    object: AuthLevelConditionalObject,
    paywall_article: Option<PaywallArticle>,
}

impl PaywallItem {
    pub closed spec fn object(&self) -> AuthLevelConditionalObject {
        self.object
    }

    pub closed spec fn article(&self) -> Option<PaywallArticle> {
        self.paywall_article
    }

    pub fn new(object: AuthLevelConditionalObject, paywall_article: Option<PaywallArticle>) -> (r: PaywallItem)
        ensures
            r.object() == object,
            r.article() == paywall_article,
    {
        PaywallItem { object, paywall_article }
    }

    pub fn has_paywall(&self) -> (r: bool)
        ensures
            r == self.article() is Some,
    {
        self.paywall_article.is_some()
    }

    pub fn get_paywall_article(&self) -> (r: Option<PaywallArticle>)
        ensures
            r == self.article(),
    {
        match &self.paywall_article {
            Some(a) => Some(a.duplicate()),
            None => None,
        }
    }
}

/// Outcome of a lookup that a client may answer from its cache.
pub enum OptionOrHashMatch {
    /// The rendering and its digest, which the client does not hold.
    Fresh(ContentAndHash),
    /// No item under that key.
    Missing,
    /// The client's digest equals the one of the rendering it would get.
    HashMatch,
}

/// The last position of `key` in `keys`, if any.
pub open spec fn last_index_of(keys: Seq<Seq<char>>, key: Seq<char>) -> Option<int>
    decreases keys.len(),
{
    if keys.len() == 0 {
        None
    } else if keys.last() == key {
        Some(keys.len() - 1)
    } else {
        last_index_of(keys.drop_last(), key)
    }
}

pub proof fn lemma_last_index_of_bounds(keys: Seq<Seq<char>>, key: Seq<char>)
    ensures
        last_index_of(keys, key) matches Some(i) ==> 0 <= i < keys.len() && keys[i] == key,
    decreases keys.len(),
{
    if keys.len() > 0 && keys.last() != key {
        lemma_last_index_of_bounds(keys.drop_last(), key);
    }
}

/// Content items by key, built once and then only read. A key given twice
/// is served from its last item.
pub struct PaywallServer {
    items: Vec<(String, PaywallItem)>,
}

impl PaywallServer {
    pub closed spec fn keys(&self) -> Seq<Seq<char>> {
        self.items@.map_values(|p: (String, PaywallItem)| p.0@)
    }

    pub closed spec fn item(&self, i: int) -> PaywallItem {
        self.items@[i].1
    }

    pub open spec fn wf(&self) -> bool {
        forall|i: int| 0 <= i < self.keys().len() ==> (#[trigger] self.item(i)).object().wf()
    }

    /// The item served under `key`.
    pub open spec fn lookup(&self, key: Seq<char>) -> Option<PaywallItem> {
        match last_index_of(self.keys(), key) {
            Some(i) => Some(self.item(i)),
            None => None,
        }
    }

    /// Rendering and digest served under `key` at `level`.
    pub open spec fn resolved(&self, key: Seq<char>, level: AuthLevel) -> Option<(Seq<char>, Seq<char>)> {
        match self.lookup(key) {
            Some(it) => {
                let k = level_index(it.object().levels(), level);
                Some((it.object().content_at(k), it.object().hash_at(k)))
            },
            None => None,
        }
    }

    pub fn new_from_paywall_items(items: Vec<(String, PaywallItem)>) -> (r: PaywallServer)
        requires
            forall|i: int| 0 <= i < items@.len() ==> (#[trigger] items@[i]).1.object().wf(),
        ensures
            r.wf(),
            r.keys() == items@.map_values(|p: (String, PaywallItem)| p.0@),
            forall|i: int| 0 <= i < items@.len() ==> #[trigger] r.item(i) == items@[i].1,
    {
        let r = PaywallServer { items };
        assert forall|i: int| 0 <= i < r.keys().len() implies (#[trigger] r.item(i)).object().wf() by {
            assert(r.item(i) == r.items@[i].1);
        }
        r
    }

    fn find(&self, target: &str) -> (r: Option<usize>)
        ensures
            r matches Some(i) ==> last_index_of(self.keys(), target@) == Some(i as int) && i < self.items@.len(),
            r is None ==> last_index_of(self.keys(), target@) is None,
    {
        let mut i: usize = self.items.len();
        assert(self.keys().subrange(0, self.items@.len() as int) == self.keys());
        while i > 0
            invariant
                i <= self.items@.len(),
                last_index_of(self.keys(), target@) == last_index_of(self.keys().subrange(0, i as int), target@),
            decreases i,
        {
            let ghost pre = self.keys().subrange(0, i as int);
            assert(pre.last() == self.items@[i - 1].0@);
            if str_eq(self.items[i - 1].0.as_str(), target) {
                return Some(i - 1);
            }
            assert(pre.drop_last() == self.keys().subrange(0, i - 1));
            i = i - 1;
        }
        None
    }

    /// Rendering and digest for `target` at the request's level; `None` when
    /// the key is absent.
    pub fn get_content_and_hash(&self, target: &str, session_status: &SessionStatus) -> (r: Option<ContentAndHash>)
        requires
            self.wf(),
        ensures
            r is None <==> self.lookup(target@) is None,
            r matches Some(c) ==> self.resolved(target@, session_status.auth_level) == Some((c.content@, c.hash@)),
            r matches Some(c) ==> c.hash@ == md5_hex_of(c.content@),
    {
        proof {
            lemma_last_index_of_bounds(self.keys(), target@);
        }
        match self.find(target) {
            Some(i) => {
                assert(self.item(i as int) == self.items@[i as int].1);
                Some(self.items[i].1.object.get_with_hash(session_status))
            },
            None => None,
        }
    }

    /// The rendering for `target` at the request's level.
    pub fn get_content(&self, target: &str, session_status: &SessionStatus) -> (r: Option<String>)
        requires
            self.wf(),
        ensures
            r is None <==> self.lookup(target@) is None,
            r matches Some(c) ==> self.resolved(target@, session_status.auth_level)->Some_0.0 == c@,
    {
        proof {
            lemma_last_index_of_bounds(self.keys(), target@);
        }
        match self.find(target) {
            Some(i) => {
                assert(self.item(i as int) == self.items@[i as int].1);
                Some(self.items[i].1.object.get(session_status))
            },
            None => None,
        }
    }

    /// The digest of the rendering for `target` at the request's level.
    pub fn get_hash(&self, target: &str, session_status: &SessionStatus) -> (r: Option<String>)
        requires
            self.wf(),
        ensures
            r is None <==> self.lookup(target@) is None,
            r matches Some(h) ==> self.resolved(target@, session_status.auth_level)->Some_0.1 == h@,
    {
        proof {
            lemma_last_index_of_bounds(self.keys(), target@);
        }
        match self.find(target) {
            Some(i) => {
                assert(self.item(i as int) == self.items@[i as int].1);
                Some(self.items[i].1.object.get_hash(session_status))
            },
            None => None,
        }
    }

    /// Like `get_content_and_hash`, but answers `HashMatch` when the client
    /// already holds the digest of the rendering it would receive.
    pub fn get_content_if_different_etag(
        &self,
        target: &str,
        session_status: &SessionStatus,
        client_hash: Option<&str>,
    ) -> (r: OptionOrHashMatch)
        requires
            self.wf(),
        ensures
            self.lookup(target@) is None <==> r is Missing,
            r is HashMatch <==> (self.lookup(target@) is Some && (client_hash matches Some(h)
                && self.resolved(target@, session_status.auth_level)->Some_0.1 == h@)),
            r matches OptionOrHashMatch::Fresh(c) ==> self.resolved(target@, session_status.auth_level) == Some((c.content@, c.hash@)),
            r matches OptionOrHashMatch::Fresh(c) ==> c.hash@ == md5_hex_of(c.content@),
    {
        match self.get_content_and_hash(target, session_status) {
            Some(content_and_hash) => {
                if let Some(h) = client_hash {
                    if str_eq(content_and_hash.hash.as_str(), h) {
                        return OptionOrHashMatch::HashMatch;
                    }
                }
                OptionOrHashMatch::Fresh(content_and_hash)
            },
            None => OptionOrHashMatch::Missing,
        }
    }

    pub fn has_paywall(&self, target: &str) -> (r: bool)
        ensures
            r == (self.lookup(target@) matches Some(it) && it.article() is Some),
    {
        proof {
            lemma_last_index_of_bounds(self.keys(), target@);
        }
        match self.find(target) {
            Some(i) => {
                assert(self.item(i as int) == self.items@[i as int].1);
                self.items[i].1.has_paywall()
            },
            None => false,
        }
    }

    /// What is sold under `target`, if anything.
    pub fn get_paywall_article(&self, target: &str) -> (r: Option<PaywallArticle>)
        ensures
            self.lookup(target@) is None ==> r is None,
            self.lookup(target@) matches Some(it) ==> r == it.article(),
    {
        proof {
            lemma_last_index_of_bounds(self.keys(), target@);
        }
        match self.find(target) {
            Some(i) => {
                assert(self.item(i as int) == self.items@[i as int].1);
                self.items[i].1.get_paywall_article()
            },
            None => None,
        }
    }
}

/// For every key, raising the request's level never selects a variant with
/// a lower threshold.
pub proof fn lemma_server_resolve_monotone(server: &PaywallServer, key: Seq<char>, l1: AuthLevel, l2: AuthLevel)
    requires
        server.wf(),
        crate::access::level_le(l1, l2),
        server.lookup(key) is Some,
    ensures
        ({
            let o = server.lookup(key)->Some_0.object();
            crate::access::level_le(o.levels()[level_index(o.levels(), l1)], o.levels()[level_index(o.levels(), l2)])
        }),
{
    lemma_last_index_of_bounds(server.keys(), key);
    let i = last_index_of(server.keys(), key)->Some_0;
    assert(server.item(i).object().wf());
    server.item(i).object().lemma_resolve_monotone(l1, l2);
}

/// A source document and the key it is served under.
pub struct PathAndFile {
    pub file_path: String,
    pub file_content: String,
}

/// Where documents are read from: a base directory and the file extensions
/// taken (the walk itself is done by the caller).
pub struct RecursiveFileReaderString {
    base_dir: String,
    file_extensions: Vec<String>,
}

impl RecursiveFileReaderString {
    pub closed spec fn base(&self) -> Seq<char> {
        self.base_dir@
    }

    pub closed spec fn extensions(&self) -> Seq<Seq<char>> {
        self.file_extensions@.map_values(|s: String| s@)
    }

    pub fn new(base_dir: String, file_extensions: Vec<String>) -> (r: RecursiveFileReaderString)
        ensures
            r.base() == base_dir@,
            r.extensions() == file_extensions@.map_values(|s: String| s@),
    {
        RecursiveFileReaderString { base_dir, file_extensions }
    }

    pub fn get_base_dir(&self) -> (r: &str)
        ensures
            r@ == self.base(),
    {
        self.base_dir.as_str()
    }

    /// Whether a file with this extension is read.
    pub fn accepts_extension(&self, extension: &str) -> (r: bool)
        ensures
            r == self.extensions().contains(extension@),
    {
        let mut i: usize = 0;
        while i < self.file_extensions.len()
            invariant
                i <= self.file_extensions@.len(),
                forall|k: int| 0 <= k < i ==> self.file_extensions@[k]@ != extension@,
            decreases self.file_extensions@.len() - i,
        {
            if str_eq(self.file_extensions[i].as_str(), extension) {
                assert(self.extensions()[i as int] == extension@);
                return true;
            }
            i = i + 1;
        }
        assert forall|k: int| 0 <= k < self.extensions().len() implies self.extensions()[k] != extension@ by {
            assert(self.extensions()[k] == self.file_extensions@[k]@);
        }
        false
    }
}

/// `out` is the text of a result that `f` may return on `input`.
pub open spec fn produced_by<F: Fn(String) -> String>(f: F, input: String, out: Seq<char>) -> bool {
    exists|s: String| s@ == out && #[trigger] f.ensures((input,), s)
}

/// Per-level transformations of a source document. Each is applied to the
/// document as read, never to another's output.
pub struct AuthLevelManipulatorByFn<F: Fn(String) -> String> {
    auth_and_funs: Vec<(AuthLevel, F)>,
}

impl<F: Fn(String) -> String> AuthLevelManipulatorByFn<F> {
    pub closed spec fn levels(&self) -> Seq<AuthLevel> {
        self.auth_and_funs@.map_values(|p: (AuthLevel, F)| p.0)
    }

    pub closed spec fn fun(&self, i: int) -> F {
        self.auth_and_funs@[i].1
    }

    /// Accepts the transformations only in strictly increasing level order.
    pub fn new(auth_and_funs: Vec<(AuthLevel, F)>) -> (r: Result<AuthLevelManipulatorByFn<F>, VariantSetError>)
        ensures
            auth_and_funs@.len() == 0 ==> r == Err::<AuthLevelManipulatorByFn<F>, VariantSetError>(VariantSetError::NoVariants),
            auth_and_funs@.len() > 0 && !strictly_increasing(auth_and_funs@.map_values(|p: (AuthLevel, F)| p.0))
                ==> r == Err::<AuthLevelManipulatorByFn<F>, VariantSetError>(VariantSetError::ThresholdsNotIncreasing),
            auth_and_funs@.len() > 0 && strictly_increasing(auth_and_funs@.map_values(|p: (AuthLevel, F)| p.0))
                ==> (r matches Ok(m) && m.levels() == auth_and_funs@.map_values(|p: (AuthLevel, F)| p.0)
                && forall|i: int| 0 <= i < auth_and_funs@.len() ==> #[trigger] m.fun(i) == auth_and_funs@[i].1),
    {
        let ghost lv = auth_and_funs@.map_values(|p: (AuthLevel, F)| p.0);
        if auth_and_funs.len() == 0 {
            return Err(VariantSetError::NoVariants);
        }
        let mut i: usize = 1;
        while i < auth_and_funs.len()
            invariant
                lv == auth_and_funs@.map_values(|p: (AuthLevel, F)| p.0),
                1 <= i <= auth_and_funs@.len(),
                strictly_increasing(lv.subrange(0, i as int)),
            decreases auth_and_funs@.len() - i,
        {
            if auth_and_funs[i - 1].0.as_u8() >= auth_and_funs[i].0.as_u8() {
                assert(lv[i - 1] == auth_and_funs@[i - 1].0 && lv[i as int] == auth_and_funs@[i as int].0);
                return Err(VariantSetError::ThresholdsNotIncreasing);
            }
            let ghost pre = lv.subrange(0, i as int);
            let ghost next = lv.subrange(0, i + 1);
            assert forall|a: int, b: int| 0 <= a < b < next.len() implies crate::access::level_lt(#[trigger] next[a], #[trigger] next[b]) by {
                if b < i {
                    assert(next[a] == pre[a] && next[b] == pre[b]);
                } else if a < i - 1 {
                    assert(next[a] == pre[a] && pre[i - 1] == lv[i - 1]);
                    assert(crate::access::level_lt(pre[a], pre[i - 1]));
                }
            }
            i = i + 1;
        }
        assert(lv.subrange(0, i as int) == lv);
        Ok(AuthLevelManipulatorByFn { auth_and_funs })
    }

    /// One transformation, served at every level.
    pub fn new_with_single_level(target_fun: F) -> (r: AuthLevelManipulatorByFn<F>)
        ensures
            r.levels() == seq![AuthLevel::NoAuth],
            r.fun(0) == target_fun,
    {
        let auth_and_funs = vec![(AuthLevel::NoAuth, target_fun)];
        let r = AuthLevelManipulatorByFn { auth_and_funs };
        assert(r.levels() =~= seq![AuthLevel::NoAuth]);
        r
    }

    /// Applies every transformation to `input` and keeps each output under
    /// its level.
    pub fn manipulate_object(&self, input: String) -> (r: AuthLevelConditionalObject)
        requires
            self.levels().len() > 0,
            strictly_increasing(self.levels()),
            forall|i: int, x: String| 0 <= i < self.levels().len() ==> #[trigger] self.fun(i).requires((x,)),
        ensures
            r.wf(),
            r.levels() == self.levels(),
            forall|i: int| 0 <= i < self.levels().len() ==> produced_by(self.fun(i), input, #[trigger] r.content_at(i)),
    {
        let mut items: Vec<(AuthLevel, String)> = Vec::new();
        let mut i: usize = 0;
        while i < self.auth_and_funs.len()
            invariant
                i <= self.auth_and_funs@.len(),
                self.levels().len() == self.auth_and_funs@.len(),
                forall|i: int, x: String| 0 <= i < self.levels().len() ==> #[trigger] self.fun(i).requires((x,)),
                items@.len() == i,
                forall|k: int| 0 <= k < i ==> #[trigger] items@[k].0 == self.levels()[k],
                forall|k: int| 0 <= k < i ==> self.fun(k).ensures((input,), #[trigger] items@[k].1),
            decreases self.auth_and_funs@.len() - i,
        {
            let level = self.auth_and_funs[i].0;
            let f = &self.auth_and_funs[i].1;
            assert(self.fun(i as int) == *f);
            let copy = input.clone();
            let content = f(copy);
            items.push((level, content));
            i = i + 1;
        }
        assert(items@.map_values(|p: (AuthLevel, String)| p.0) =~= self.levels());
        let ghost snapshot = items@;
        match AuthLevelConditionalObject::new(items) {
            Ok(o) => {
                assert forall|i: int| 0 <= i < self.levels().len() implies produced_by(self.fun(i), input, #[trigger] o.content_at(i)) by {
                    assert(o.content_at(i) == snapshot[i].1@);
                    assert(self.fun(i).ensures((input,), snapshot[i].1));
                }
                o
            },
            Err(_) => {
                // unreachable: the levels are non-empty and strictly increasing
                assert(false);
                AuthLevelConditionalObject::new_with_single_level(input)
            },
        }
    }
}

/// Builds the content store from documents already read: every document is
/// served under its path, with one variant per transformation and the
/// paywall attributes it carries.
pub fn paywall_server_factory<F: Fn(String) -> String>(
    files: Vec<PathAndFile>,
    manipulator: &AuthLevelManipulatorByFn<F>,
) -> (r: PaywallServer)
    requires
        manipulator.levels().len() > 0,
        strictly_increasing(manipulator.levels()),
        forall|i: int, x: String| 0 <= i < manipulator.levels().len() ==> #[trigger] manipulator.fun(i).requires((x,)),
    ensures
        r.wf(),
        r.keys() == files@.map_values(|f: PathAndFile| f.file_path@),
        forall|i: int| 0 <= i < files@.len() ==> (#[trigger] r.item(i)).object().levels() == manipulator.levels(),
        forall|i: int, k: int| 0 <= i < files@.len() && 0 <= k < manipulator.levels().len()
            ==> produced_by(manipulator.fun(k), files@[i].file_content, #[trigger] r.item(i).object().content_at(k)),
        forall|i: int| 0 <= i < files@.len() ==> ((#[trigger] r.item(i)).article() is Some <==> paywall_fields(files@[i].file_content@) is Some),
        forall|i: int| 0 <= i < files@.len() ==> ((#[trigger] r.item(i)).article() matches Some(a)
            ==> a.holds(paywall_fields(files@[i].file_content@)->Some_0, files@[i].file_path@)),
{
    let mut items: Vec<(String, PaywallItem)> = Vec::new();
    let mut i: usize = 0;
    while i < files.len()
        invariant
            i <= files@.len(),
            manipulator.levels().len() > 0,
            strictly_increasing(manipulator.levels()),
            forall|i: int, x: String| 0 <= i < manipulator.levels().len() ==> #[trigger] manipulator.fun(i).requires((x,)),
            items@.len() == i,
            forall|j: int| 0 <= j < i ==> (#[trigger] items@[j]).0@ == files@[j].file_path@,
            forall|j: int| 0 <= j < i ==> (#[trigger] items@[j]).1.object().wf(),
            forall|j: int| 0 <= j < i ==> (#[trigger] items@[j]).1.object().levels() == manipulator.levels(),
            forall|j: int, k: int| 0 <= j < i && 0 <= k < manipulator.levels().len()
                ==> produced_by(manipulator.fun(k), files@[j].file_content, #[trigger] items@[j].1.object().content_at(k)),
            forall|j: int| 0 <= j < i ==> ((#[trigger] items@[j]).1.article() is Some <==> paywall_fields(files@[j].file_content@) is Some),
            forall|j: int| 0 <= j < i ==> ((#[trigger] items@[j]).1.article() matches Some(a)
                ==> a.holds(paywall_fields(files@[j].file_content@)->Some_0, files@[j].file_path@)),
        decreases files@.len() - i,
    {
        let file = &files[i];
        let object = manipulator.manipulate_object(file.file_content.clone());
        let article = PaywallArticle::from_html_string(file.file_content.as_str(), file.file_path.as_str());
        items.push((file.file_path.clone(), PaywallItem::new(object, article)));
        i = i + 1;
    }
    let ghost snapshot = items@;
    let r = PaywallServer::new_from_paywall_items(items);
    assert(r.keys() =~= files@.map_values(|f: PathAndFile| f.file_path@)) by {
        assert forall|j: int| 0 <= j < files@.len() implies r.keys()[j] == files@[j].file_path@ by {
            assert(snapshot[j].0@ == files@[j].file_path@);
        }
    }
    r
}

} // verus!
