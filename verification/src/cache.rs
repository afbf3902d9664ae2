//! The response cache: a map from cache key to buffered response.
use vstd::prelude::*;
use crate::message::valid_status;
use crate::message::CacheKey;
use crate::message::CachedResponse;
use crate::message::KeyView;
use crate::message::ResponseView;

verus! {

/// One stored response with the key it is stored under.
struct Entry {
    key: CacheKey,
    response: CachedResponse,
}

/// `key` is the key of the entry at `i`.
spec fn holds_at(entries: Seq<Entry>, key: KeyView, i: int) -> bool {
    0 <= i < entries.len() && entries[i].key@ == key
}

/// A list of entries as a map from key to response.
spec fn content(entries: Seq<Entry>) -> Map<KeyView, ResponseView> {
    Map::new(
        |key: KeyView| exists|i: int| holds_at(entries, key, i),
        |key: KeyView| entries[choose|i: int| holds_at(entries, key, i)].response@,
    )
}

/// No key occurs twice and every response carries a valid status.
spec fn well_formed(entries: Seq<Entry>) -> bool {
    &&& forall|i: int, j: int| 0 <= i < j < entries.len() ==> entries[i].key@ != entries[j].key@
    &&& forall|i: int|
        0 <= i < entries.len() ==> valid_status((#[trigger] entries[i]).response.status)
}

/// In a well-formed list, the entry at `i` is what the map holds for its
/// key.
proof fn lemma_entry(entries: Seq<Entry>, i: int)
    requires
        well_formed(entries),
        0 <= i < entries.len(),
    ensures
        content(entries).contains_key(entries[i].key@),
        content(entries)[entries[i].key@] == entries[i].response@,
{
    let key = entries[i].key@;
    assert(holds_at(entries, key, i));
    let c = choose|c: int| holds_at(entries, key, c);
    if c < i {
        assert(entries[c].key@ != entries[i].key@);
    } else if i < c {
        assert(entries[i].key@ != entries[c].key@);
    }
}

/// Putting an entry at the place of its key, or at the end where the key
/// is new, keeps the list well formed and inserts into the map.
proof fn lemma_store(before: Seq<Entry>, after: Seq<Entry>, at: int, entry: Entry)
    requires
        well_formed(before),
        valid_status(entry.response.status),
        holds_at(before, entry.key@, at) && after == before.update(at, entry) || {
            &&& !content(before).contains_key(entry.key@)
            &&& at == before.len()
            &&& after == before.push(entry)
        },
    ensures
        well_formed(after),
        content(after) == content(before).insert(entry.key@, entry.response@),
{
    let key = entry.key@;
    assert(holds_at(after, key, at));
    assert forall|i: int, j: int| 0 <= i < j < after.len() implies after[i].key@
        != after[j].key@ by {
        if j < before.len() {
            assert(before[i].key@ != before[j].key@);
        } else {
            assert(holds_at(before, before[i].key@, i));
        }
    }
    assert(well_formed(after));
    let target = content(before).insert(key, entry.response@);
    assert forall|k: KeyView| content(after).contains_key(k) <==> target.contains_key(k) by {
        if content(after).contains_key(k) && k != key {
            let c = choose|c: int| holds_at(after, k, c);
            assert(holds_at(before, k, c));
        }
        if target.contains_key(k) && k != key {
            let c = choose|c: int| holds_at(before, k, c);
            assert(holds_at(after, k, c));
        }
    }
    assert forall|k: KeyView| content(after).contains_key(k) implies content(after)[k]
        == target[k] by {
        let c = choose|c: int| holds_at(after, k, c);
        lemma_entry(after, c);
        if k != key {
            assert(holds_at(before, k, c));
            lemma_entry(before, c);
        }
    }
    assert(content(after) =~= target);
}

/// A well-formed list has as many keys as entries.
proof fn lemma_domain_size(entries: Seq<Entry>)
    requires
        well_formed(entries),
    ensures
        content(entries).dom().finite(),
        content(entries).dom().len() == entries.len(),
    decreases entries.len(),
{
    if entries.len() == 0 {
        assert(content(entries).dom() =~= Set::<KeyView>::empty());
    } else {
        let last = entries.len() - 1;
        let shorter = entries.drop_last();
        lemma_domain_size(shorter);
        let key = entries[last].key@;
        assert(holds_at(entries, key, last));
        assert forall|k: KeyView|
            content(entries).dom().contains(k) <==> content(shorter).dom().insert(key).contains(
                k,
            ) by {
            if content(entries).dom().contains(k) && k != key {
                let i = choose|i: int| holds_at(entries, k, i);
                assert(holds_at(shorter, k, i));
            }
            if content(shorter).dom().contains(k) {
                let i = choose|i: int| holds_at(shorter, k, i);
                assert(holds_at(entries, k, i));
            }
        }
        assert(content(entries).dom() =~= content(shorter).dom().insert(key));
        if content(shorter).dom().contains(key) {
            let i = choose|i: int| holds_at(shorter, key, i);
            assert(entries[i].key@ != entries[last].key@);
        }
    }
}

/// The index of the entry stored under `key`, if there is one.
fn position(entries: &Vec<Entry>, key: &CacheKey) -> (at: Option<usize>)
    ensures
        match at {
            Some(i) => holds_at(entries@, key@, i as int),
            None => !content(entries@).contains_key(key@),
        },
{
    let mut i: usize = 0;
    while i < entries.len()
        invariant
            i <= entries@.len(),
            forall|j: int| 0 <= j < i ==> entries@[j].key@ != key@,
        decreases entries@.len() - i,
    {
        if entries[i].key.same_as(key) {
            return Some(i);
        }
        i += 1;
    }
    proof {
        if content(entries@).contains_key(key@) {
            let c = choose|c: int| holds_at(entries@, key@, c);
            assert(holds_at(entries@, key@, c));
        }
    }
    None
}

/// The in-memory response cache: at most one response per key, each with
/// a status from 100 to 599. Nothing is ever evicted.
pub struct ResponseCache {
    entries: Vec<Entry>,
}

impl View for ResponseCache {
    type V = Map<KeyView, ResponseView>;

    /// The cache as a map from key to response.
    closed spec fn view(&self) -> Map<KeyView, ResponseView> {
        content(self.entries@)
    }
}

impl ResponseCache {
    #[verifier::type_invariant]
    spec fn wf(&self) -> bool {
        well_formed(self.entries@)
    }

    /// An empty cache.
    pub fn new() -> (cache: ResponseCache)
        ensures
            cache@ == Map::<KeyView, ResponseView>::empty(),
    {
        let cache = ResponseCache { entries: Vec::new() };
        assert(cache@ =~= Map::<KeyView, ResponseView>::empty());
        cache
    }

    /// The number of stored responses.
    pub fn len(&self) -> (n: usize)
        ensures
            self@.dom().finite(),
            n == self@.dom().len(),
    {
        proof {
            use_type_invariant(self);
            lemma_domain_size(self.entries@);
        }
        self.entries.len()
    }

    /// Whether a response is stored under `key`.
    pub fn contains(&self, key: &CacheKey) -> (found: bool)
        ensures
            found == self@.contains_key(key@),
    {
        proof {
            use_type_invariant(self);
        }
        match position(&self.entries, key) {
            Some(i) => {
                proof {
                    lemma_entry(self.entries@, i as int);
                }
                true
            },
            None => false,
        }
    }

    /// A copy of the response stored under `key`, or `None` where nothing
    /// is stored under it. The cache itself is not changed.
    pub fn lookup(&self, key: &CacheKey) -> (found: Option<CachedResponse>)
        ensures
            match found {
                Some(response) => self@.contains_key(key@) && response@ == self@[key@]
                    && response.wf(),
                None => !self@.contains_key(key@),
            },
    {
        proof {
            use_type_invariant(self);
        }
        match position(&self.entries, key) {
            Some(i) => {
                proof {
                    lemma_entry(self.entries@, i as int);
                }
                Some(self.entries[i].response.duplicate())
            },
            None => None,
        }
    }

    /// Stores `response` under `key`, replacing what was stored under it
    /// before. Every other key keeps its response.
    pub fn insert(&mut self, key: CacheKey, response: CachedResponse)
        requires
            response.wf(),
        ensures
            final(self)@ == old(self)@.insert(key@, response@),
    {
        proof {
            use_type_invariant(&*self);
        }
        let mut entries: Vec<Entry> = Vec::new();
        std::mem::swap(&mut entries, &mut self.entries);
        let ghost before = entries@;
        let entry = Entry { key, response };
        match position(&entries, &entry.key) {
            Some(i) => {
                proof {
                    lemma_store(before, before.update(i as int, entry), i as int, entry);
                }
                entries.set(i, entry);
            },
            None => {
                proof {
                    lemma_store(before, before.push(entry), before.len() as int, entry);
                }
                entries.push(entry);
            },
        }
        self.entries = entries;
    }
}

} // verus!
