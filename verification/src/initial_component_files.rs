//! The content-addressed store for initial component files: immutable
//! blobs keyed by the lowercase hex SHA-256 digest of their bytes,
//! namespaced per account.

use vstd::prelude::*;
use vstd::slice::slice_to_vec;
use crate::hashing::{content_hash_hex, spec_content_hash};
use crate::model::{AccountId, InitialComponentFileKey};

verus! {

/// One stored blob: its account namespace, its key, and its bytes.
struct BlobEntry {
    account: String,
    key: String,
    data: Vec<u8>,
}

/// An in-memory object store addressable by (account, key).
pub struct BlobStorage {
    entries: Vec<BlobEntry>,
}

/// The contents of a store: (account, key, bytes) triples in storage
/// order.
pub type StoreView = Seq<(Seq<char>, Seq<char>, Seq<u8>)>;

impl View for BlobStorage {
    type V = StoreView;

    closed spec fn view(&self) -> StoreView {
        Seq::new(self.entries@.len(), |i: int|
            (self.entries@[i].account@, self.entries@[i].key@, self.entries@[i].data@),
        )
    }
}

/// The bytes stored under (account, key), searching from `i`.
pub open spec fn spec_store_find_from(
    s: StoreView,
    account: Seq<char>,
    key: Seq<char>,
    i: int,
) -> Option<Seq<u8>>
    decreases s.len() - i,
{
    if i < 0 || i >= s.len() {
        None
    } else if s[i].0 == account && s[i].1 == key {
        Some(s[i].2)
    } else {
        spec_store_find_from(s, account, key, i + 1)
    }
}

/// The bytes stored under (account, key).
pub open spec fn spec_store_find(s: StoreView, account: Seq<char>, key: Seq<char>) -> Option<
    Seq<u8>,
> {
    spec_store_find_from(s, account, key, 0)
}

/// The store after `put_if_not_exists`: unchanged when the key is
/// already present, else extended by one entry whose key is the
/// content hash of `bytes`.
pub open spec fn spec_store_put(s: StoreView, account: Seq<char>, bytes: Seq<u8>) -> StoreView {
    let key = spec_content_hash(bytes);
    if spec_store_find(s, account, key) is Some {
        s
    } else {
        s.push((account, key, bytes))
    }
}

/// No two entries of `s` share an (account, key) pair.
pub open spec fn spec_store_wf(s: StoreView) -> bool {
    forall|i: int, j: int| 0 <= i < j < s.len()
        ==> !((#[trigger] s[i]).0 == (#[trigger] s[j]).0 && s[i].1 == s[j].1)
}

/// How many entries of `s` sit under (account, key), from index `i` on.
pub open spec fn spec_store_count_from(
    s: StoreView,
    account: Seq<char>,
    key: Seq<char>,
    i: int,
) -> nat
    decreases s.len() - i,
{
    if i < 0 || i >= s.len() {
        0
    } else {
        (if s[i].0 == account && s[i].1 == key {
            1nat
        } else {
            0nat
        }) + spec_store_count_from(s, account, key, i + 1)
    }
}

/// How many entries of `s` sit under (account, key).
pub open spec fn spec_store_count(s: StoreView, account: Seq<char>, key: Seq<char>) -> nat {
    spec_store_count_from(s, account, key, 0)
}

impl BlobStorage {
    /// An empty store.
    pub fn new() -> (r: BlobStorage)
        ensures
            r@ == Seq::<(Seq<char>, Seq<char>, Seq<u8>)>::empty(),
    {
        let r = BlobStorage { entries: Vec::new() };
        proof {
            assert(r@ =~= Seq::<(Seq<char>, Seq<char>, Seq<u8>)>::empty());
        }
        r
    }

    /// The bytes stored under (account, key), if any.
    fn find<'a>(&'a self, account: &String, key: &String) -> (r: Option<&'a Vec<u8>>)
        ensures
            (match (r, spec_store_find(self@, account@, key@)) {
                (Some(d), Some(sd)) => d@ == sd,
                (None, None) => true,
                _ => false,
            }),
    {
        let mut i: usize = 0;
        while i < self.entries.len()
            invariant
                i <= self.entries@.len(),
                spec_store_find(self@, account@, key@) == spec_store_find_from(self@,
                    account@, key@, i as int),
            decreases self.entries@.len() - i,
        {
            if self.entries[i].account == *account && self.entries[i].key == *key {
                return Some(&self.entries[i].data);
            }
            i = i + 1;
        }
        None
    }

    /// Stores `data` under (account, key); the caller has checked that
    /// the key is absent.
    fn put(&mut self, account: String, key: String, data: Vec<u8>)
        ensures
            final(self)@ == old(self)@.push((account@, key@, data@)),
    {
        let ghost orig = self@;
        self.entries.push(BlobEntry { account, key, data });
        proof {
            assert(self@ =~= orig.push((self.entries@.last().account@,
                self.entries@.last().key@, self.entries@.last().data@)));
        }
    }
}

/// Service for storing initial component files: a content-addressed
/// facade over the blob store.
pub struct InitialComponentFilesService {
    blob_storage: BlobStorage,
}

impl View for InitialComponentFilesService {
    type V = StoreView;

    closed spec fn view(&self) -> StoreView {
        self.blob_storage@
    }
}

impl InitialComponentFilesService {
    pub fn new(blob_storage: BlobStorage) -> (r: Self)
        ensures
            r@ == blob_storage@,
    {
        InitialComponentFilesService { blob_storage }
    }

    /// Whether a blob sits under `key` in the account's namespace: a
    /// metadata probe only.
    pub fn contains(&self, account_id: &AccountId, key: &InitialComponentFileKey) -> (r: Result<
        bool,
        String,
    >)
        ensures
            (match r {
                Ok(b) => b == (spec_store_find(self@, account_id.value@, key.0@) is Some),
                Err(_) => false,
            }),
    {
        match self.blob_storage.find(&account_id.value, &key.0) {
            Some(_) => Ok(true),
            None => Ok(false),
        }
    }

    /// The bytes under `key` in the account's namespace; an unknown key
    /// is a normal absent outcome, not an error.
    pub fn get(&self, account_id: &AccountId, key: &InitialComponentFileKey) -> (r: Result<
        Option<Vec<u8>>,
        String,
    >)
        ensures
            (match r {
                Ok(Some(d)) => spec_store_find(self@, account_id.value@, key.0@) == Some(d@),
                Ok(None) => spec_store_find(self@, account_id.value@, key.0@) is None,
                Err(_) => false,
            }),
    {
        match self.blob_storage.find(&account_id.value, &key.0) {
            Some(d) => Ok(Some(slice_to_vec(d.as_slice()))),
            None => Ok(None),
        }
    }

    /// Stores `bytes` under its content hash unless already present,
    /// and returns that key either way.  Idempotent by construction:
    /// identical bytes always yield the identical key, and at most one
    /// physical copy is written.
    pub fn put_if_not_exists(&mut self, account_id: &AccountId, bytes: &Vec<u8>) -> (r: Result<
        InitialComponentFileKey,
        String,
    >)
        ensures
            (match r {
                Ok(k) => k.0@ == spec_content_hash(bytes@),
                Err(_) => false,
            }),
            final(self)@ == spec_store_put(old(self)@, account_id.value@, bytes@),
    {
        let hash = content_hash_hex(bytes.as_slice());
        match self.blob_storage.find(&account_id.value, &hash) {
            Some(_) => Ok(InitialComponentFileKey(hash)),
            None => {
                let key_text = hash.clone();
                let data = slice_to_vec(bytes.as_slice());
                self.blob_storage.put(account_id.value.clone(), key_text, data);
                Ok(InitialComponentFileKey(hash))
            },
        }
    }
}

proof fn lemma_find_none_no_match(s: StoreView, account: Seq<char>, key: Seq<char>, i: int)
    requires
        0 <= i <= s.len(),
        spec_store_find_from(s, account, key, i) is None,
    ensures
        forall|j: int| i <= j < s.len() ==> !((#[trigger] s[j]).0 == account && s[j].1 == key),
    decreases s.len() - i,
{
    if i < s.len() {
        lemma_find_none_no_match(s, account, key, i + 1);
    }
}

proof fn lemma_no_match_count_zero(s: StoreView, account: Seq<char>, key: Seq<char>, i: int)
    requires
        0 <= i <= s.len(),
        forall|j: int| i <= j < s.len() ==> !((#[trigger] s[j]).0 == account && s[j].1 == key),
    ensures
        spec_store_count_from(s, account, key, i) == 0,
    decreases s.len() - i,
{
    if i < s.len() {
        lemma_no_match_count_zero(s, account, key, i + 1);
    }
}

proof fn lemma_find_some_count_one(s: StoreView, account: Seq<char>, key: Seq<char>, i: int)
    requires
        0 <= i <= s.len(),
        spec_store_wf(s),
        spec_store_find_from(s, account, key, i) is Some,
    ensures
        spec_store_count_from(s, account, key, i) == 1,
    decreases s.len() - i,
{
    if i < s.len() {
        if s[i].0 == account && s[i].1 == key {
            assert forall|j: int| i + 1 <= j < s.len()
                implies !((#[trigger] s[j]).0 == account && s[j].1 == key) by {
                assert(!(s[i].0 == s[j].0 && s[i].1 == s[j].1));
            }
            lemma_no_match_count_zero(s, account, key, i + 1);
        } else {
            lemma_find_some_count_one(s, account, key, i + 1);
        }
    }
}

proof fn lemma_push_find_hit(s: StoreView, account: Seq<char>, key: Seq<char>, d: Seq<u8>, i: int)
    requires
        0 <= i <= s.len(),
        spec_store_find_from(s, account, key, i) is None,
    ensures
        spec_store_find_from(s.push((account, key, d)), account, key, i) == Some(d),
        spec_store_count_from(s.push((account, key, d)), account, key, i) == 1,
    decreases s.len() - i,
{
    let t = s.push((account, key, d));
    if i < s.len() {
        assert(t[i] == s[i]);
        lemma_push_find_hit(s, account, key, d, i + 1);
    } else {
        assert(t[i] == (account, key, d));
        assert(spec_store_count_from(t, account, key, i + 1) == 0);
    }
}

/// Storing the same bytes twice is idempotent: both calls return the
/// identical content-hash key, the second call leaves the store
/// unchanged, and the store holds exactly one entry under that key.
/// The returned key is pinned to `spec_content_hash(bytes)` by
/// `put_if_not_exists` itself, so it is the same for both calls.
pub proof fn lemma_put_if_not_exists_idempotent(
    s: StoreView,
    account: Seq<char>,
    bytes: Seq<u8>,
)
    requires
        spec_store_wf(s),
    ensures
        spec_store_put(spec_store_put(s, account, bytes), account, bytes) == spec_store_put(
            s, account, bytes),
        spec_store_count(spec_store_put(s, account, bytes), account, spec_content_hash(bytes))
            == 1,
        spec_store_wf(spec_store_put(s, account, bytes)),
{
    let key = spec_content_hash(bytes);
    let once = spec_store_put(s, account, bytes);
    if spec_store_find(s, account, key) is Some {
        lemma_find_some_count_one(s, account, key, 0);
    } else {
        lemma_push_find_hit(s, account, key, bytes, 0);
        lemma_find_none_no_match(s, account, key, 0);
        assert forall|i: int, j: int| 0 <= i < j < once.len()
            implies !((#[trigger] once[i]).0 == (#[trigger] once[j]).0 && once[i].1
                == once[j].1) by {
            if j < s.len() {
                assert(once[i] == s[i] && once[j] == s[j]);
            } else {
                assert(once[i] == s[i] && once[j] == (account, key, bytes));
            }
        }
    }
}

/// Reading a key right after storing its bytes returns exactly those
/// bytes, provided no different bytes already sat under that key (that
/// is, barring a content-hash collision in the prior store).
pub proof fn lemma_get_after_put(s: StoreView, account: Seq<char>, bytes: Seq<u8>)
    requires
        (match spec_store_find(s, account, spec_content_hash(bytes)) {
            Some(d) => d == bytes,
            None => true,
        }),
    ensures
        spec_store_find(spec_store_put(s, account, bytes), account, spec_content_hash(bytes))
            == Some(bytes),
{
    let key = spec_content_hash(bytes);
    if spec_store_find(s, account, key) is None {
        lemma_push_find_hit(s, account, key, bytes, 0);
    }
}

} // verus!
