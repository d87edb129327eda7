use vstd::prelude::*;

use crate::error::ApiError;
use crate::meta::{content_path, BlogMeta, BlogPost, PostView, ScanEntry};

verus! {

/// `s` lists exactly the posts of `m`, each once.
pub open spec fn lists(s: Seq<BlogPost>, m: Map<Seq<char>, PostView>) -> bool {
    &&& forall|i: int, j: int| 0 <= i < j < s.len() ==> s[i].key() != s[j].key()
    &&& forall|i: int| 0 <= i < s.len() ==> #[trigger] m.contains_key(s[i].key()) && m[s[i].key()] == s[i]@
    &&& forall|k: Seq<char>| #[trigger] m.contains_key(k) ==> exists|i: int| 0 <= i < s.len() && s[i].key() == k
}

/// The catalog that a scan yielding `entries`, in this order, produces: each
/// entry with a post adds it under its id, replacing an earlier one.
pub open spec fn scan_map(entries: Seq<ScanEntry>) -> Map<Seq<char>, PostView>
    decreases entries.len(),
{
    if entries.len() == 0 {
        Map::empty()
    } else {
        let prev = scan_map(entries.drop_last());
        match entries.last().post() {
            Some(p) => prev.insert(p.meta.id@, p),
            None => prev,
        }
    }
}

/// The posts known at one time, keyed by id.
pub struct Catalog {
    posts: Vec<BlogPost>,
    model: Ghost<Map<Seq<char>, PostView>>,
}

impl View for Catalog {
    type V = Map<Seq<char>, PostView>;

    closed spec fn view(&self) -> Map<Seq<char>, PostView> {
        self.model@
    }
}

impl Catalog {
    pub closed spec fn wf(&self) -> bool {
        lists(self.posts@, self.model@)
    }

    /// A catalog with no posts.
    pub fn new() -> (r: Catalog)
        ensures
            r.wf(),
            r@ == Map::<Seq<char>, PostView>::empty(),
    {
        Catalog { posts: Vec::new(), model: Ghost(Map::empty()) }
    }

    /// Number of posts.
    pub fn len(&self) -> (r: usize)
        requires
            self.wf(),
        ensures
            r == self@.len(),
    {
        proof {
            self.lemma_dom_len();
        }
        self.posts.len()
    }

    proof fn lemma_dom_len(&self)
        requires
            self.wf(),
        ensures
            self@.len() == self.posts@.len(),
            self@.dom().finite(),
    {
        let s = self.posts@;
        let keys = s.map_values(|p: BlogPost| p.key());
        assert(keys.no_duplicates()) by {
            assert forall|i: int, j: int| 0 <= i < keys.len() && 0 <= j < keys.len() && i != j
                implies keys[i] != keys[j] by {
                if i < j {
                } else {
                }
            }
        }
        keys.unique_seq_to_set();
        assert(self@.dom() =~= keys.to_set()) by {
            assert forall|k: Seq<char>| self@.dom().contains(k) implies keys.to_set().contains(k) by {
                let i = choose|i: int| 0 <= i < s.len() && s[i].key() == k;
                assert(keys[i] == k);
            }
            assert forall|k: Seq<char>| keys.to_set().contains(k) implies self@.dom().contains(k) by {
                let i = choose|i: int| 0 <= i < keys.len() && keys[i] == k;
                assert(self@.contains_key(s[i].key()));
            }
        }
    }

    /// All posts, each once.
    pub fn posts(&self) -> (r: &Vec<BlogPost>)
        requires
            self.wf(),
        ensures
            lists(r@, self@),
    {
        &self.posts
    }

    /// Position of the post with this id.
    fn find(&self, id: &String) -> (r: Option<usize>)
        requires
            self.wf(),
        ensures
            match r {
                Some(i) => i < self.posts@.len() && self.posts@[i as int].key() == id@,
                None => !self@.contains_key(id@),
            },
    {
        let mut i: usize = 0;
        while i < self.posts.len()
            invariant
                self.wf(),
                i <= self.posts@.len(),
                forall|j: int| 0 <= j < i ==> self.posts@[j].key() != id@,
            decreases self.posts@.len() - i,
        {
            if self.posts[i].meta.id == *id {
                return Some(i);
            }
            i = i + 1;
        }
        None
    }

    /// Adds a post under its id, replacing a post with the same id.
    pub fn insert(&mut self, post: BlogPost)
        requires
            old(self).wf(),
        ensures
            final(self).wf(),
            final(self)@ == old(self)@.insert(post.key(), post@),
    {
        let ghost m = self@.insert(post.key(), post@);
        let ghost at: int;
        match self.find(&post.meta.id) {
            Some(i) => {
                proof {
                    at = i as int;
                }
                self.posts.set(i, post);
            },
            None => {
                proof {
                    at = self.posts@.len() as int;
                }
                self.posts.push(post);
            },
        }
        self.model = Ghost(m);
        assert(lists(self.posts@, m)) by {
            let s = self.posts@;
            assert forall|k: Seq<char>| #[trigger] m.contains_key(k) implies exists|i: int|
                0 <= i < s.len() && s[i].key() == k by {
                if k != post.key() {
                    let j = choose|j: int| 0 <= j < old(self).posts@.len() && old(self).posts@[j].key() == k;
                    assert(s[j].key() == k);
                } else {
                    assert(s[at].key() == k);
                }
            }
        }
    }

    /// The catalog that a scan yielding `entries` produces.
    pub fn build(entries: &Vec<ScanEntry>) -> (r: Catalog)
        ensures
            r.wf(),
            r@ == scan_map(entries@),
    {
        let mut cat = Catalog::new();
        let mut i: usize = 0;
        while i < entries.len()
            invariant
                cat.wf(),
                i <= entries@.len(),
                cat@ == scan_map(entries@.subrange(0, i as int)),
            decreases entries@.len() - i,
        {
            let e = &entries[i];
            assert(entries@.subrange(0, i + 1).drop_last() =~= entries@.subrange(0, i as int));
            assert(entries@.subrange(0, i + 1).last() == *e);
            if e.is_dir {
                match &e.meta {
                    Some(m) => {
                        let post = BlogPost { filepath: content_path(&e.dir), meta: m.clone() };
                        cat.insert(post);
                    },
                    None => {},
                }
            }
            i = i + 1;
        }
        assert(entries@.subrange(0, entries@.len() as int) =~= entries@);
        cat
    }

    /// The post with this id.
    pub fn get(&self, id: &str) -> (r: Option<&BlogPost>)
        requires
            self.wf(),
        ensures
            match r {
                Some(p) => self@.contains_key(id@) && p@ == self@[id@],
                None => !self@.contains_key(id@),
            },
    {
        let key = id.to_owned();
        match self.find(&key) {
            Some(i) => {
                assert(self@.contains_key(self.posts@[i as int].key()));
                Some(&self.posts[i])
            },
            None => None,
        }
    }

    /// Metadata of the post with this id; `NotFound` where there is none.
    pub fn get_metadata(&self, id: &str) -> (r: Result<BlogMeta, ApiError>)
        requires
            self.wf(),
        ensures
            match r {
                Ok(m) => self@.contains_key(id@) && m == self@[id@].meta,
                Err(e) => !self@.contains_key(id@) && e == ApiError::NotFound,
            },
    {
        match self.get(id) {
            Some(p) => Ok(p.meta.clone()),
            None => Err(ApiError::NotFound),
        }
    }

    /// Path of the content file of the post with this id; `NotFound` where
    /// there is none.
    pub fn get_content_path(&self, id: &str) -> (r: Result<String, ApiError>)
        requires
            self.wf(),
        ensures
            match r {
                Ok(path) => self@.contains_key(id@) && path@ == self@[id@].path,
                Err(e) => !self@.contains_key(id@) && e == ApiError::NotFound,
            },
    {
        match self.get(id) {
            Some(p) => Ok(p.filepath.clone()),
            None => Err(ApiError::NotFound),
        }
    }
}

/// A post is in the catalog of a scan exactly where some entry of the scan
/// contributes a post with its id.
pub proof fn lemma_scan_map_keys(entries: Seq<ScanEntry>, id: Seq<char>)
    ensures
        scan_map(entries).contains_key(id) <==> exists|i: int|
            0 <= i < entries.len() && #[trigger] entries[i].post() is Some
                && entries[i].post()->0.meta.id@ == id,
    decreases entries.len(),
{
    if entries.len() > 0 {
        let prev = entries.drop_last();
        lemma_scan_map_keys(prev, id);
        if scan_map(entries).contains_key(id) {
            if !scan_map(prev).contains_key(id) {
                assert(entries[entries.len() - 1].post() is Some);
            } else {
                let i = choose|i: int|
                    0 <= i < prev.len() && #[trigger] prev[i].post() is Some && prev[i].post()->0.meta.id@ == id;
                assert(entries[i] == prev[i]);
            }
        } else {
            assert forall|i: int| 0 <= i < entries.len() && #[trigger] entries[i].post() is Some
                implies entries[i].post()->0.meta.id@ != id by {
                if i < prev.len() {
                    assert(entries[i] == prev[i]);
                }
            }
        }
    }
}

/// An entry that contributes no post (not a directory, or no readable
/// metadata) leaves the catalog as it would be without it: it is absent, and
/// the entries after it are taken as usual.
pub proof fn lemma_skipped_entry(entries: Seq<ScanEntry>, i: int)
    requires
        0 <= i < entries.len(),
        entries[i].post() is None,
    ensures
        scan_map(entries) == scan_map(entries.remove(i)),
    decreases entries.len(),
{
    if i == entries.len() - 1 {
        assert(entries.remove(i) =~= entries.drop_last());
    } else {
        let rest = entries.remove(i);
        lemma_skipped_entry(entries.drop_last(), i);
        assert(rest.drop_last() =~= entries.drop_last().remove(i));
        assert(rest.last() == entries.last());
    }
}

/// Of two entries with posts under one id, the later one is catalogued,
/// where no entry after it has that id: one post per id, the last scanned.
pub proof fn lemma_duplicate_id_last_wins(entries: Seq<ScanEntry>, i: int, j: int)
    requires
        0 <= i < j < entries.len(),
        entries[i].post() is Some,
        entries[j].post() is Some,
        entries[i].post()->0.meta.id@ == entries[j].post()->0.meta.id@,
        forall|k: int|
            j < k < entries.len() && #[trigger] entries[k].post() is Some
                ==> entries[k].post()->0.meta.id@ != entries[j].post()->0.meta.id@,
    ensures
        scan_map(entries).contains_key(entries[j].post()->0.meta.id@),
        scan_map(entries)[entries[j].post()->0.meta.id@] == entries[j].post()->0,
    decreases entries.len(),
{
    if j < entries.len() - 1 {
        let prev = entries.drop_last();
        assert(prev[i] == entries[i] && prev[j] == entries[j]);
        assert forall|k: int| j < k < prev.len() && #[trigger] prev[k].post() is Some
            implies prev[k].post()->0.meta.id@ != prev[j].post()->0.meta.id@ by {
            assert(prev[k] == entries[k]);
        }
        lemma_duplicate_id_last_wins(prev, i, j);
        assert(entries[entries.len() - 1] == entries.last());
    }
}

} // verus!
