//! Reference semantics of the storage contract: an in-memory store with
//! the operation set every backend adapter implements, precise per-operation
//! transition functions, and proofs of the contract's cross-backend laws.
//!
//! The store models a provider: buckets keyed by name, each holding objects
//! keyed by name. Its view is the map of maps those names index, and every
//! operation's contract is stated against that view through the transition
//! functions below — the same functions the contract's laws are proved
//! about.

use vstd::prelude::*;

use crate::range::{range_slice, range_valid, apply_range};
use crate::{ClientBucket, ClientObject};

verus! {

/// An object handle the in-memory store returns: identified by its key, as
/// a backend without entity tags would do.
pub struct MemoryObject {
    pub bucket: String,
    pub object_name: String,
    pub size: u64,
}

impl ClientObject for MemoryObject {
    open spec fn spec_size(&self) -> u64 {
        self.size
    }

    open spec fn size_known(&self) -> bool {
        true
    }

    open spec fn spec_bucket_name(&self) -> Seq<char> {
        self.bucket@
    }

    open spec fn spec_id(&self) -> Seq<char> {
        self.object_name@
    }

    open spec fn spec_name(&self) -> Seq<char> {
        self.object_name@
    }

    open spec fn spec_content_type(&self) -> Option<Seq<char>> {
        None
    }

    fn size(&self) -> (r: u64) {
        self.size
    }

    fn bucket_name(&self) -> (r: String) {
        self.bucket.clone()
    }

    fn id(&self) -> (r: String) {
        self.object_name.clone()
    }

    fn name(&self) -> (r: String) {
        self.object_name.clone()
    }

    fn content_type(&self) -> (r: Option<String>) {
        None
    }
}

/// A bucket handle the in-memory store returns: identified by its name,
/// with no location, as a backend without regions would do.
pub struct MemoryBucket {
    pub bucket_name: String,
}

impl ClientBucket for MemoryBucket {
    open spec fn spec_id(&self) -> Seq<char> {
        self.bucket_name@
    }

    open spec fn spec_name(&self) -> Seq<char> {
        self.bucket_name@
    }

    open spec fn spec_location(&self) -> Option<Seq<char>> {
        None
    }

    fn id(&self) -> (r: String) {
        self.bucket_name.clone()
    }

    fn name(&self) -> (r: String) {
        self.bucket_name.clone()
    }

    fn location(&self) -> (r: Option<String>) {
        None
    }
}

/// A stored object: its key within the bucket and its content.
pub struct StoredObject {
    pub name: String,
    pub data: Vec<u8>,
}

/// A stored bucket: its name and its objects, in insertion order.
pub struct StoredBucket {
    pub name: String,
    pub objects: Vec<StoredObject>,
}

/// What a store holds, as a map: bucket name to object name to content.
pub type StoreView = Map<Seq<char>, Map<Seq<char>, Seq<u8>>>;

/// The contents of an object list, keyed by object name.
pub open spec fn obj_map(objs: Seq<StoredObject>) -> Map<Seq<char>, Seq<u8>>
    decreases objs.len(),
{
    if objs.len() == 0 {
        Map::empty()
    } else {
        obj_map(objs.drop_last()).insert(objs.last().name@, objs.last().data@)
    }
}

/// The contents of a bucket list, keyed by bucket name.
pub open spec fn bucket_map(bs: Seq<StoredBucket>) -> StoreView
    decreases bs.len(),
{
    if bs.len() == 0 {
        Map::empty()
    } else {
        bucket_map(bs.drop_last()).insert(bs.last().name@, obj_map(bs.last().objects@))
    }
}

/// No two objects share a name.
pub open spec fn obj_names_unique(objs: Seq<StoredObject>) -> bool {
    forall|i: int, j: int|
        0 <= i < j < objs.len() ==> objs[i].name@ != objs[j].name@
}

/// No two buckets share a name.
pub open spec fn bucket_names_unique(bs: Seq<StoredBucket>) -> bool {
    forall|i: int, j: int|
        0 <= i < j < bs.len() ==> bs[i].name@ != bs[j].name@
}

proof fn lemma_obj_map_contains(objs: Seq<StoredObject>, k: Seq<char>)
    ensures
        obj_map(objs).contains_key(k) <==> (exists|i: int|
            0 <= i < objs.len() && objs[i].name@ == k),
    decreases objs.len(),
{
    if objs.len() > 0 {
        let prev = objs.drop_last();
        lemma_obj_map_contains(prev, k);
        if objs.last().name@ == k {
            assert(objs[objs.len() - 1].name@ == k);
        } else {
            if obj_map(objs).contains_key(k) {
                let i = choose|i: int| 0 <= i < prev.len() && prev[i].name@ == k;
                assert(objs[i].name@ == k);
            }
            if exists|i: int| 0 <= i < objs.len() && objs[i].name@ == k {
                let i = choose|i: int| 0 <= i < objs.len() && objs[i].name@ == k;
                assert(prev[i].name@ == k);
            }
        }
    }
}

proof fn lemma_obj_map_value(objs: Seq<StoredObject>, i: int)
    requires
        obj_names_unique(objs),
        0 <= i < objs.len(),
    ensures
        obj_map(objs).contains_key(objs[i].name@),
        obj_map(objs)[objs[i].name@] == objs[i].data@,
    decreases objs.len(),
{
    if i < objs.len() - 1 {
        let prev = objs.drop_last();
        assert(obj_names_unique(prev));
        lemma_obj_map_value(prev, i);
    }
}

proof fn lemma_obj_map_remove(objs: Seq<StoredObject>, i: int)
    requires
        obj_names_unique(objs),
        0 <= i < objs.len(),
    ensures
        obj_names_unique(objs.remove(i)),
        obj_map(objs.remove(i)) == obj_map(objs).remove(objs[i].name@),
    decreases objs.len(),
{
    let k = objs[i].name@;
    let prev = objs.drop_last();
    assert(obj_names_unique(prev));
    assert forall|x: int, y: int|
        0 <= x < y < objs.remove(i).len() implies objs.remove(i)[x].name@ != objs.remove(
        i,
    )[y].name@ by {
        assert(objs.remove(i)[x] == if x < i {
            objs[x]
        } else {
            objs[x + 1]
        });
        assert(objs.remove(i)[y] == if y < i {
            objs[y]
        } else {
            objs[y + 1]
        });
    }
    if i == objs.len() - 1 {
        assert(objs.remove(i) =~= prev);
        lemma_obj_map_contains(prev, k);
        assert(!obj_map(prev).contains_key(k));
        assert(obj_map(prev) =~= obj_map(objs).remove(k));
    } else {
        lemma_obj_map_remove(prev, i);
        assert(objs.remove(i).drop_last() =~= prev.remove(i));
        assert(objs.remove(i).last() == objs.last());
        let ln = objs.last().name@;
        let ld = objs.last().data@;
        assert(obj_map(objs.remove(i)) == obj_map(prev.remove(i)).insert(ln, ld));
        assert(obj_map(prev).remove(k).insert(ln, ld) =~= obj_map(prev).insert(ln, ld).remove(k));
    }
}

proof fn lemma_obj_map_card(objs: Seq<StoredObject>)
    requires
        obj_names_unique(objs),
    ensures
        obj_map(objs).dom().finite(),
        obj_map(objs).dom().len() == objs.len(),
    decreases objs.len(),
{
    if objs.len() == 0 {
        assert(obj_map(objs).dom() =~= Set::<Seq<char>>::empty());
    } else {
        let prev = objs.drop_last();
        assert(obj_names_unique(prev));
        lemma_obj_map_card(prev);
        lemma_obj_map_contains(prev, objs.last().name@);
        assert(!obj_map(prev).contains_key(objs.last().name@));
        assert(obj_map(objs).dom() =~= obj_map(prev).dom().insert(objs.last().name@));
    }
}

proof fn lemma_bucket_map_card(bs: Seq<StoredBucket>)
    requires
        bucket_names_unique(bs),
    ensures
        bucket_map(bs).dom().finite(),
        bucket_map(bs).dom().len() == bs.len(),
    decreases bs.len(),
{
    if bs.len() == 0 {
        assert(bucket_map(bs).dom() =~= Set::<Seq<char>>::empty());
    } else {
        let prev = bs.drop_last();
        assert(bucket_names_unique(prev));
        lemma_bucket_map_card(prev);
        lemma_bucket_map_contains(prev, bs.last().name@);
        assert(!bucket_map(prev).contains_key(bs.last().name@));
        assert(bucket_map(bs).dom() =~= bucket_map(prev).dom().insert(bs.last().name@));
    }
}

proof fn lemma_bucket_map_contains(bs: Seq<StoredBucket>, k: Seq<char>)
    ensures
        bucket_map(bs).contains_key(k) <==> (exists|i: int| 0 <= i < bs.len() && bs[i].name@ == k),
    decreases bs.len(),
{
    if bs.len() > 0 {
        let prev = bs.drop_last();
        lemma_bucket_map_contains(prev, k);
        if bs.last().name@ == k {
            assert(bs[bs.len() - 1].name@ == k);
        } else {
            if bucket_map(bs).contains_key(k) {
                let i = choose|i: int| 0 <= i < prev.len() && prev[i].name@ == k;
                assert(bs[i].name@ == k);
            }
            if exists|i: int| 0 <= i < bs.len() && bs[i].name@ == k {
                let i = choose|i: int| 0 <= i < bs.len() && bs[i].name@ == k;
                assert(prev[i].name@ == k);
            }
        }
    }
}

proof fn lemma_bucket_map_value(bs: Seq<StoredBucket>, i: int)
    requires
        bucket_names_unique(bs),
        0 <= i < bs.len(),
    ensures
        bucket_map(bs).contains_key(bs[i].name@),
        bucket_map(bs)[bs[i].name@] == obj_map(bs[i].objects@),
    decreases bs.len(),
{
    if i < bs.len() - 1 {
        let prev = bs.drop_last();
        assert(bucket_names_unique(prev));
        lemma_bucket_map_value(prev, i);
    }
}

proof fn lemma_bucket_map_remove(bs: Seq<StoredBucket>, i: int)
    requires
        bucket_names_unique(bs),
        0 <= i < bs.len(),
    ensures
        bucket_names_unique(bs.remove(i)),
        bucket_map(bs.remove(i)) == bucket_map(bs).remove(bs[i].name@),
    decreases bs.len(),
{
    let k = bs[i].name@;
    let prev = bs.drop_last();
    assert(bucket_names_unique(prev));
    assert forall|x: int, y: int|
        0 <= x < y < bs.remove(i).len() implies bs.remove(i)[x].name@ != bs.remove(
        i,
    )[y].name@ by {
        assert(bs.remove(i)[x] == if x < i {
            bs[x]
        } else {
            bs[x + 1]
        });
        assert(bs.remove(i)[y] == if y < i {
            bs[y]
        } else {
            bs[y + 1]
        });
    }
    if i == bs.len() - 1 {
        assert(bs.remove(i) =~= prev);
        lemma_bucket_map_contains(prev, k);
        assert(!bucket_map(prev).contains_key(k));
        assert(bucket_map(prev) =~= bucket_map(bs).remove(k));
    } else {
        lemma_bucket_map_remove(prev, i);
        assert(bs.remove(i).drop_last() =~= prev.remove(i));
        assert(bs.remove(i).last() == bs.last());
        let ln = bs.last().name@;
        let lo = obj_map(bs.last().objects@);
        assert(bucket_map(bs.remove(i)) == bucket_map(prev.remove(i)).insert(ln, lo));
        assert(bucket_map(prev).remove(k).insert(ln, lo) =~= bucket_map(prev).insert(
            ln,
            lo,
        ).remove(k));
    }
}

proof fn lemma_bucket_map_update(bs: Seq<StoredBucket>, i: int, nb: StoredBucket)
    requires
        bucket_names_unique(bs),
        0 <= i < bs.len(),
        nb.name@ == bs[i].name@,
    ensures
        bucket_names_unique(bs.update(i, nb)),
        bucket_map(bs.update(i, nb)) == bucket_map(bs).insert(nb.name@, obj_map(nb.objects@)),
    decreases bs.len(),
{
    let k = bs[i].name@;
    let prev = bs.drop_last();
    assert(bucket_names_unique(prev));
    assert(forall|x: int|
        0 <= x < bs.len() ==> bs.update(i, nb)[x] == if x == i {
            nb
        } else {
            bs[x]
        });
    if i == bs.len() - 1 {
        assert(bs.update(i, nb).drop_last() =~= prev);
        assert(bs.update(i, nb).last() == nb);
        assert(bucket_map(prev).insert(k, obj_map(nb.objects@)) =~= bucket_map(prev).insert(
            k,
            obj_map(bs[i].objects@),
        ).insert(k, obj_map(nb.objects@)));
    } else {
        lemma_bucket_map_update(prev, i, nb);
        assert(bs.update(i, nb).drop_last() =~= prev.update(i, nb));
        assert(bs.update(i, nb).last() == bs.last());
        let ln = bs.last().name@;
        let lo = obj_map(bs.last().objects@);
        assert(bucket_map(bs.update(i, nb)) == bucket_map(prev).insert(
            k,
            obj_map(nb.objects@),
        ).insert(ln, lo));
        assert(bucket_map(prev).insert(k, obj_map(nb.objects@)).insert(ln, lo)
            =~= bucket_map(prev).insert(ln, lo).insert(k, obj_map(nb.objects@)));
    }
}

/// Whether `handles` names every key of `contents`: nothing stored was left
/// out of a listing.
pub open spec fn listing_complete(
    handles: Seq<MemoryObject>,
    contents: Map<Seq<char>, Seq<u8>>,
) -> bool {
    forall|k: Seq<char>|
        contents.contains_key(k) ==> exists|j: int|
            0 <= j < handles.len() && (#[trigger] handles[j].object_name@) == k
}

/// Whether bucket `b` exists and holds object `k`.
pub open spec fn object_listed(m: StoreView, b: Seq<char>, k: Seq<char>) -> bool {
    m.contains_key(b) && m[b].contains_key(k)
}

/// What uploading `d` as object `k` of bucket `b` does to a store: the
/// object is written (overwriting any namesake without warning) when the
/// bucket exists; a missing bucket leaves the store unchanged.
pub open spec fn store_upload(m: StoreView, b: Seq<char>, k: Seq<char>, d: Seq<u8>) -> StoreView {
    if m.contains_key(b) {
        m.insert(b, m[b].insert(k, d))
    } else {
        m
    }
}

/// What downloading object `k` of bucket `b` with a byte range returns
/// from a store: the bytes the range denotes of its content, or nothing
/// when the bucket or object is absent or the range is not satisfiable.
pub open spec fn store_download(
    m: StoreView,
    b: Seq<char>,
    k: Seq<char>,
    starting: Option<u64>,
    ending: Option<u64>,
) -> Option<Seq<u8>> {
    if object_listed(m, b, k) && range_valid(m[b][k].len(), starting, ending) {
        Some(range_slice(m[b][k], starting, ending))
    } else {
        None
    }
}

/// What removing object `k` of bucket `b` does to a store: the object is
/// gone whether or not it was there; a missing bucket leaves the store
/// unchanged.
pub open spec fn store_remove_object(m: StoreView, b: Seq<char>, k: Seq<char>) -> StoreView {
    if m.contains_key(b) {
        m.insert(b, m[b].remove(k))
    } else {
        m
    }
}

/// What creating bucket `b` does to a store: an empty bucket appears; a
/// name collision leaves the store unchanged (the operation reports the
/// conflict).
pub open spec fn store_create_bucket(m: StoreView, b: Seq<char>) -> StoreView {
    if m.contains_key(b) {
        m
    } else {
        m.insert(b, Map::empty())
    }
}

/// What removing bucket `b` does to a store.
pub open spec fn store_remove_bucket(m: StoreView, b: Seq<char>) -> StoreView {
    m.remove(b)
}

/// What copying an object does to a store: the source object's content is
/// written as the destination object when the source exists and the
/// destination bucket exists; otherwise the store is unchanged.
pub open spec fn store_copy_object(
    m: StoreView,
    src_bucket: Seq<char>,
    src_object: Seq<char>,
    dest_bucket: Seq<char>,
    dest_object: Seq<char>,
) -> StoreView {
    if object_listed(m, src_bucket, src_object) && m.contains_key(dest_bucket) {
        m.insert(dest_bucket, m[dest_bucket].insert(dest_object, m[src_bucket][src_object]))
    } else {
        m
    }
}

fn find_bucket(buckets: &Vec<StoredBucket>, name: &String) -> (r: Option<usize>)
    ensures
        (r matches Some(i) ==> i < buckets@.len() && buckets@[i as int].name@ == name@),
        (r is None ==> forall|i: int| 0 <= i < buckets@.len() ==> buckets@[i].name@ != name@),
{
    let mut idx: usize = 0;
    while idx < buckets.len()
        invariant
            idx <= buckets@.len(),
            forall|i: int| 0 <= i < idx ==> buckets@[i].name@ != name@,
        decreases buckets@.len() - idx,
    {
        if buckets[idx].name == *name {
            return Some(idx);
        }
        idx += 1;
    }
    None
}

fn find_object(objs: &Vec<StoredObject>, name: &String) -> (r: Option<usize>)
    ensures
        (r matches Some(i) ==> i < objs@.len() && objs@[i as int].name@ == name@),
        (r is None ==> forall|i: int| 0 <= i < objs@.len() ==> objs@[i].name@ != name@),
{
    let mut idx: usize = 0;
    while idx < objs.len()
        invariant
            idx <= objs@.len(),
            forall|i: int| 0 <= i < idx ==> objs@[i].name@ != name@,
        decreases objs@.len() - idx,
    {
        if objs[idx].name == *name {
            return Some(idx);
        }
        idx += 1;
    }
    None
}

fn clone_bytes(data: &Vec<u8>) -> (r: Vec<u8>)
    ensures
        r@ == data@,
{
    let mut v: Vec<u8> = Vec::new();
    let mut i: usize = 0;
    while i < data.len()
        invariant
            i <= data@.len(),
            v@ == data@.subrange(0, i as int),
        decreases data@.len() - i,
    {
        v.push(data[i]);
        proof {
            assert(v@ =~= data@.subrange(0, i + 1 as int));
        }
        i += 1;
    }
    proof {
        assert(v@ =~= data@);
    }
    v
}

fn list_object_handles(bucket_name: &String, objs: &Vec<StoredObject>, max_results: Option<u32>) -> (out: Vec<
    MemoryObject,
>)
    requires
        obj_names_unique(objs@),
    ensures
        forall|j: int|
            #![trigger out@[j]]
            0 <= j < out@.len() ==> out@[j].bucket@ == bucket_name@ && obj_map(
                objs@,
            ).contains_key(out@[j].object_name@) && out@[j].size == obj_map(
                objs@,
            )[out@[j].object_name@].len(),
        (max_results matches Some(n) ==> out@.len() <= n),
        (max_results matches Some(n) ==> (obj_map(objs@).dom().len() < n ==> out@.len() == obj_map(
            objs@,
        ).dom().len())),
        (max_results matches Some(n) ==> (obj_map(objs@).dom().len() >= n ==> out@.len() == n)),
        (max_results is None ==> out@.len() == obj_map(objs@).dom().len()),
        (max_results is None ==> listing_complete(out@, obj_map(objs@))),
        forall|i: int, j: int|
            #![trigger out@[i], out@[j]]
            0 <= i < j < out@.len() ==> out@[i].object_name@ != out@[j].object_name@,
{
    proof {
        lemma_obj_map_card(objs@);
    }
    let limit: usize = match max_results {
        Some(n) => {
            let n_us: usize = n as usize;
            if n_us < objs.len() {
                n_us
            } else {
                objs.len()
            }
        },
        None => objs.len(),
    };
    let mut out: Vec<MemoryObject> = Vec::new();
    let mut idx: usize = 0;
    while idx < limit
        invariant
            idx <= limit <= objs@.len(),
            out@.len() == idx,
            forall|j: int|
                #![trigger out@[j]]
                0 <= j < idx ==> out@[j].object_name@ == objs@[j].name@ && out@[j].bucket@
                    == bucket_name@ && out@[j].size == objs@[j].data@.len(),
        decreases limit - idx,
    {
        let ghost prev_out = out@;
        let h = MemoryObject {
            bucket: bucket_name.clone(),
            object_name: objs[idx].name.clone(),
            size: objs[idx].data.len() as u64,
        };
        let ghost gh = h;
        out.push(h);
        proof {
            assert(out@ == prev_out.push(gh));
            assert forall|j: int| #![trigger out@[j]]
                0 <= j < idx + 1 implies out@[j].object_name@ == objs@[j].name@ && out@[j].bucket@
                == bucket_name@ && out@[j].size == objs@[j].data@.len() by {
                if j < idx {
                    assert(out@[j] == prev_out[j]);
                } else {
                    assert(out@[j] == gh);
                }
            }
        }
        idx += 1;
    }
    proof {
        assert forall|i: int, j: int| #![trigger out@[i], out@[j]]
            0 <= i < j < out@.len() implies out@[i].object_name@ != out@[j].object_name@ by {
            assert(out@[i].object_name@ == objs@[i].name@);
            assert(out@[j].object_name@ == objs@[j].name@);
        }
        assert forall|j: int| #![trigger out@[j]]
            0 <= j < out@.len() implies out@[j].bucket@ == bucket_name@ && obj_map(
            objs@,
        ).contains_key(out@[j].object_name@) && out@[j].size == obj_map(
            objs@,
        )[out@[j].object_name@].len() by {
            lemma_obj_map_value(objs@, j);
        }
        if max_results is None {
            assert forall|k: Seq<char>|
                obj_map(objs@).contains_key(k) implies exists|j: int|
                0 <= j < out@.len() && (#[trigger] out@[j].object_name@) == k by {
                lemma_obj_map_contains(objs@, k);
                let oi = choose|oi: int| 0 <= oi < objs@.len() && objs@[oi].name@ == k;
                assert(out@[oi].object_name@ == k);
            }
            assert(listing_complete(out@, obj_map(objs@)));
        }
    }
    out
}

/// The in-memory store: the reference implementation of the contract's
/// operation set.
pub struct MemoryStore {
    buckets: Vec<StoredBucket>,
}

impl View for MemoryStore {
    type V = StoreView;

    closed spec fn view(&self) -> StoreView {
        bucket_map(self.buckets@)
    }
}

impl MemoryStore {
    /// Well-formedness: bucket names are unique, and object names are
    /// unique within each bucket. Constructors establish it and every
    /// operation preserves it.
    pub closed spec fn wf(&self) -> bool {
        &&& bucket_names_unique(self.buckets@)
        &&& forall|i: int|
            0 <= i < self.buckets@.len() ==> obj_names_unique(#[trigger] self.buckets@[i].objects@)
    }

    /// An empty store.
    pub fn new() -> (r: MemoryStore)
        ensures
            r.wf(),
            r@ == Map::<Seq<char>, Map<Seq<char>, Seq<u8>>>::empty(),
    {
        let r = MemoryStore { buckets: Vec::new() };
        proof {
            assert(r@ =~= Map::<Seq<char>, Map<Seq<char>, Seq<u8>>>::empty());
        }
        r
    }

    /// Creates a bucket. A name collision is reported as `None` and leaves
    /// the store unchanged.
    pub fn create_bucket(&mut self, bucket_name: String) -> (r: Option<MemoryBucket>)
        requires
            old(self).wf(),
        ensures
            final(self).wf(),
            final(self)@ == store_create_bucket(old(self)@, bucket_name@),
            (r is Some <==> !old(self)@.contains_key(bucket_name@)),
            (r matches Some(h) ==> h.bucket_name@ == bucket_name@),
    {
        let found = find_bucket(&self.buckets, &bucket_name);
        proof {
            lemma_bucket_map_contains(self.buckets@, bucket_name@);
        }
        match found {
            Some(_) => None,
            None => {
                let ghost bs0 = self.buckets@;
                let handle = MemoryBucket { bucket_name: bucket_name.clone() };
                self.buckets.push(StoredBucket { name: bucket_name, objects: Vec::new() });
                proof {
                    assert(self.buckets@.drop_last() =~= bs0);
                    assert(obj_map(self.buckets@.last().objects@) =~= Map::<Seq<char>, Seq<u8>>::empty());
                    assert(self@ =~= store_create_bucket(old(self)@, self.buckets@.last().name@));
                    assert forall|x: int, y: int|
                        0 <= x < y < self.buckets@.len() implies self.buckets@[x].name@
                        != self.buckets@[y].name@ by {
                        if y < self.buckets@.len() - 1 {
                            assert(bs0[x].name@ != bs0[y].name@);
                        }
                    }
                }
                Some(handle)
            },
        }
    }

    /// Point lookup of a bucket; `None` exactly when it is absent.
    pub fn get_bucket(&self, bucket_name: &String) -> (r: Option<MemoryBucket>)
        requires
            self.wf(),
        ensures
            (r is Some <==> self@.contains_key(bucket_name@)),
            (r matches Some(h) ==> h.bucket_name@ == bucket_name@),
    {
        let found = find_bucket(&self.buckets, bucket_name);
        proof {
            lemma_bucket_map_contains(self.buckets@, bucket_name@);
        }
        match found {
            Some(i) => {
                proof {
                    lemma_bucket_map_value(self.buckets@, i as int);
                }
                Some(MemoryBucket { bucket_name: bucket_name.clone() })
            },
            None => None,
        }
    }

    /// Removes a bucket; reports whether it was there. Removing an absent
    /// bucket leaves the store unchanged.
    pub fn remove_bucket(&mut self, bucket_name: &String) -> (r: bool)
        requires
            old(self).wf(),
        ensures
            final(self).wf(),
            final(self)@ == store_remove_bucket(old(self)@, bucket_name@),
            r == old(self)@.contains_key(bucket_name@),
    {
        let found = find_bucket(&self.buckets, bucket_name);
        proof {
            lemma_bucket_map_contains(self.buckets@, bucket_name@);
        }
        match found {
            Some(i) => {
                proof {
                    lemma_bucket_map_remove(self.buckets@, i as int);
                    assert(self.buckets@[i as int].name@ == bucket_name@);
                }
                self.buckets.remove(i);
                true
            },
            None => {
                proof {
                    assert(self@.remove(bucket_name@) =~= self@);
                }
                false
            },
        }
    }

    /// Lists bucket handles: at most `max_results` of them when a bound is
    /// given (the first page, in stored order), all of them otherwise.
    pub fn list_buckets(&self, max_results: Option<u32>) -> (r: Vec<MemoryBucket>)
        requires
            self.wf(),
        ensures
            forall|j: int|
                0 <= j < r@.len() ==> self@.contains_key(#[trigger] r@[j].bucket_name@),
            (max_results matches Some(n) ==> r@.len() <= n),
            (max_results matches Some(n) ==> (self@.dom().len() < n ==> r@.len()
                == self@.dom().len())),
            (max_results matches Some(n) ==> (self@.dom().len() >= n ==> r@.len() == n)),
            (max_results is None ==> r@.len() == self@.dom().len()),
            (max_results is None ==> forall|k: Seq<char>|
                self@.contains_key(k) ==> exists|j: int|
                    0 <= j < r@.len() && r@[j].bucket_name@ == k),
            forall|i: int, j: int|
                #![trigger r@[i], r@[j]]
                0 <= i < j < r@.len() ==> r@[i].bucket_name@ != r@[j].bucket_name@,
    {
        proof {
            lemma_bucket_map_card(self.buckets@);
        }
        let limit: usize = match max_results {
            Some(n) => {
                let n_us: usize = n as usize;
                if n_us < self.buckets.len() {
                    n_us
                } else {
                    self.buckets.len()
                }
            },
            None => self.buckets.len(),
        };
        let mut out: Vec<MemoryBucket> = Vec::new();
        let mut idx: usize = 0;
        while idx < limit
            invariant
                self.wf(),
                idx <= limit <= self.buckets@.len(),
                out@.len() == idx,
                forall|j: int|
                    0 <= j < idx ==> #[trigger] out@[j].bucket_name@ == self.buckets@[j].name@,
                forall|j: int|
                    0 <= j < idx ==> self@.contains_key(#[trigger] out@[j].bucket_name@),
            decreases limit - idx,
        {
            out.push(MemoryBucket { bucket_name: self.buckets[idx].name.clone() });
            proof {
                lemma_bucket_map_value(self.buckets@, idx as int);
            }
            idx += 1;
        }
        proof {
            assert forall|i: int, j: int| #![trigger out@[i], out@[j]]
                0 <= i < j < out@.len() implies out@[i].bucket_name@ != out@[j].bucket_name@ by {
                assert(out@[i].bucket_name@ == self.buckets@[i].name@);
                assert(out@[j].bucket_name@ == self.buckets@[j].name@);
            }
            if max_results is None {
                assert forall|k: Seq<char>| self@.contains_key(k) implies exists|j: int|
                    0 <= j < out@.len() && out@[j].bucket_name@ == k by {
                    lemma_bucket_map_contains(self.buckets@, k);
                    let i = choose|i: int| 0 <= i < self.buckets@.len() && self.buckets@[i].name@
                        == k;
                    assert(out@[i].bucket_name@ == k);
                }
            }
        }
        out
    }

    /// Point lookup of an object; `None` exactly when the bucket or the
    /// object is absent. The handle carries the bucket it was asked for,
    /// the key it was asked for (as both name and id, non-empty whenever
    /// the key is), and the stored content's size.
    pub fn get_object(&self, bucket_name: &String, object_name: &String) -> (r: Option<
        MemoryObject,
    >)
        requires
            self.wf(),
        ensures
            (r is Some <==> object_listed(self@, bucket_name@, object_name@)),
            (r matches Some(h) ==> h.bucket@ == bucket_name@ && h.object_name@ == object_name@
                && h.size == self@[bucket_name@][object_name@].len()),
            (r matches Some(h) ==> (object_name@.len() > 0 ==> h.spec_name().len() > 0
                && h.spec_id().len() > 0)),
    {
        let found = find_bucket(&self.buckets, bucket_name);
        proof {
            lemma_bucket_map_contains(self.buckets@, bucket_name@);
        }
        match found {
            None => None,
            Some(i) => {
                proof {
                    lemma_bucket_map_value(self.buckets@, i as int);
                }
                let objs = &self.buckets[i].objects;
                let found_obj = find_object(objs, object_name);
                proof {
                    lemma_obj_map_contains(objs@, object_name@);
                }
                match found_obj {
                    None => None,
                    Some(j) => {
                        proof {
                            lemma_obj_map_value(objs@, j as int);
                        }
                        Some(
                            MemoryObject {
                                bucket: bucket_name.clone(),
                                object_name: object_name.clone(),
                                size: objs[j].data.len() as u64,
                            },
                        )
                    },
                }
            },
        }
    }

    /// Lists object handles of a bucket; `None` exactly when the bucket is
    /// absent. At most `max_results` entries when a bound is given (the
    /// first page, in stored order), all entries otherwise.
    #[verifier::rlimit(50)]
    pub fn list_objects(&self, bucket_name: &String, max_results: Option<u32>) -> (r: Option<
        Vec<MemoryObject>,
    >)
        requires
            self.wf(),
        ensures
            (r is Some <==> self@.contains_key(bucket_name@)),
            (r matches Some(v) ==> forall|j: int|
                #![trigger v@[j]]
                0 <= j < v@.len() ==> v@[j].bucket@ == bucket_name@ && object_listed(
                    self@,
                    bucket_name@,
                    v@[j].object_name@,
                ) && v@[j].size == self@[bucket_name@][v@[j].object_name@].len()),
            (r matches Some(v) ==> (max_results matches Some(n) ==> v@.len() <= n)),
            (r matches Some(v) ==> (max_results matches Some(n) ==> (
            self@[bucket_name@].dom().len() < n ==> v@.len() == self@[bucket_name@].dom().len()))),
            (r matches Some(v) ==> (max_results matches Some(n) ==> (
            self@[bucket_name@].dom().len() >= n ==> v@.len() == n))),
            (r matches Some(v) ==> (max_results is None ==> v@.len()
                == self@[bucket_name@].dom().len())),
            (r matches Some(v) ==> (max_results is None ==> listing_complete(
                v@,
                self@[bucket_name@],
            ))),
            (r matches Some(v) ==> forall|i: int, j: int|
                #![trigger v@[i], v@[j]]
                0 <= i < j < v@.len() ==> v@[i].object_name@ != v@[j].object_name@),
    {
        let found = find_bucket(&self.buckets, bucket_name);
        proof {
            lemma_bucket_map_contains(self.buckets@, bucket_name@);
        }
        match found {
            None => None,
            Some(i) => {
                proof {
                    lemma_bucket_map_value(self.buckets@, i as int);
                }
                let out = list_object_handles(bucket_name, &self.buckets[i].objects, max_results);
                Some(out)
            },
        }
    }

    /// Uploads `data` as object `object_name` of an existing bucket,
    /// overwriting a namesake without warning; `None` exactly when the
    /// bucket is absent. The returned handle reports the payload's size.
    pub fn static_upload_object(
        &mut self,
        bucket_name: &String,
        object_name: String,
        data: Vec<u8>,
    ) -> (r: Option<MemoryObject>)
        requires
            old(self).wf(),
        ensures
            final(self).wf(),
            final(self)@ == store_upload(old(self)@, bucket_name@, object_name@, data@),
            (r is Some <==> old(self)@.contains_key(bucket_name@)),
            (r matches Some(h) ==> h.bucket@ == bucket_name@ && h.object_name@ == object_name@
                && h.size == data@.len()),
    {
        let found = find_bucket(&self.buckets, bucket_name);
        proof {
            lemma_bucket_map_contains(self.buckets@, bucket_name@);
        }
        match found {
            None => None,
            Some(i) => {
                let ghost bs0 = self.buckets@;
                proof {
                    lemma_bucket_map_value(bs0, i as int);
                }
                let size: u64 = data.len() as u64;
                let handle = MemoryObject {
                    bucket: bucket_name.clone(),
                    object_name: object_name.clone(),
                    size,
                };
                let mut b = self.buckets.remove(i);
                let ghost objs0 = b.objects@;
                proof {
                    assert(obj_names_unique(objs0));
                }
                let found_obj = find_object(&b.objects, &object_name);
                proof {
                    lemma_obj_map_contains(objs0, object_name@);
                }
                match found_obj {
                    Some(j) => {
                        b.objects.remove(j);
                        proof {
                            lemma_obj_map_remove(objs0, j as int);
                        }
                    },
                    None => {},
                }
                let ghost objs1 = b.objects@;
                proof {
                    assert(obj_names_unique(objs1));
                    lemma_obj_map_contains(objs1, object_name@);
                    assert(!obj_map(objs1).contains_key(object_name@));
                    assert(obj_map(objs1).insert(object_name@, data@) =~= obj_map(objs0).insert(
                        object_name@,
                        data@,
                    ));
                }
                b.objects.push(StoredObject { name: object_name, data });
                let ghost nb = b;
                proof {
                    assert(nb.objects@.drop_last() =~= objs1);
                    assert(obj_map(nb.objects@) == obj_map(objs1).insert(
                        nb.objects@.last().name@,
                        nb.objects@.last().data@,
                    ));
                    assert forall|x: int, y: int|
                        0 <= x < y < nb.objects@.len() implies nb.objects@[x].name@
                        != nb.objects@[y].name@ by {
                        if y < nb.objects@.len() - 1 {
                            assert(objs1[x].name@ != objs1[y].name@);
                        } else {
                            assert(objs1[x].name@ != nb.objects@.last().name@);
                        }
                    }
                }
                self.buckets.insert(i, b);
                proof {
                    assert(self.buckets@ =~= bs0.update(i as int, nb));
                    lemma_bucket_map_update(bs0, i as int, nb);
                    assert(final(self)@ =~= store_upload(
                        old(self)@,
                        bucket_name@,
                        nb.objects@.last().name@,
                        nb.objects@.last().data@,
                    ));
                }
                Some(handle)
            },
        }
    }

    /// Downloads the bytes a range denotes of an object's content; `None`
    /// exactly when the bucket or object is absent or the range is not
    /// satisfiable against it.
    pub fn static_download_object(
        &self,
        bucket_name: &String,
        object_name: &String,
        starting: Option<u64>,
        ending: Option<u64>,
    ) -> (r: Option<Vec<u8>>)
        requires
            self.wf(),
        ensures
            (r matches Some(v) ==> store_download(self@, bucket_name@, object_name@, starting, ending)
                == Some(v@)),
            (r is None ==> store_download(self@, bucket_name@, object_name@, starting, ending)
                is None),
    {
        let found = find_bucket(&self.buckets, bucket_name);
        proof {
            lemma_bucket_map_contains(self.buckets@, bucket_name@);
        }
        match found {
            None => None,
            Some(i) => {
                proof {
                    lemma_bucket_map_value(self.buckets@, i as int);
                }
                let objs = &self.buckets[i].objects;
                let found_obj = find_object(objs, object_name);
                proof {
                    lemma_obj_map_contains(objs@, object_name@);
                }
                match found_obj {
                    None => None,
                    Some(j) => {
                        proof {
                            lemma_obj_map_value(objs@, j as int);
                        }
                        apply_range(&objs[j].data, starting, ending)
                    },
                }
            },
        }
    }

    /// Removes an object; reports whether it was there. Removing an absent
    /// object, or from an absent bucket, leaves the store unchanged.
    pub fn remove_object(&mut self, bucket_name: &String, object_name: &String) -> (r: bool)
        requires
            old(self).wf(),
        ensures
            final(self).wf(),
            final(self)@ == store_remove_object(old(self)@, bucket_name@, object_name@),
            r == object_listed(old(self)@, bucket_name@, object_name@),
    {
        let found = find_bucket(&self.buckets, bucket_name);
        proof {
            lemma_bucket_map_contains(self.buckets@, bucket_name@);
        }
        match found {
            None => false,
            Some(i) => {
                let ghost bs0 = self.buckets@;
                proof {
                    lemma_bucket_map_value(bs0, i as int);
                }
                let mut b = self.buckets.remove(i);
                let ghost objs0 = b.objects@;
                proof {
                    assert(obj_names_unique(objs0));
                }
                let found_obj = find_object(&b.objects, object_name);
                proof {
                    lemma_obj_map_contains(objs0, object_name@);
                }
                let was_there: bool = match found_obj {
                    Some(j) => {
                        b.objects.remove(j);
                        proof {
                            lemma_obj_map_remove(objs0, j as int);
                        }
                        true
                    },
                    None => {
                        proof {
                            assert(obj_map(objs0).remove(object_name@) =~= obj_map(objs0));
                        }
                        false
                    },
                };
                let ghost nb = b;
                self.buckets.insert(i, b);
                proof {
                    assert(obj_map(nb.objects@) == obj_map(objs0).remove(object_name@));
                    assert(self.buckets@ =~= bs0.update(i as int, nb));
                    lemma_bucket_map_update(bs0, i as int, nb);
                    assert(final(self)@ =~= store_remove_object(
                        old(self)@,
                        bucket_name@,
                        object_name@,
                    ));
                }
                was_there
            },
        }
    }

    /// Copies an object's content to a destination bucket and key — a read
    /// followed by a write; `None` exactly when the source is absent or the
    /// destination bucket is absent. Cross-bucket copies are allowed here.
    pub fn copy_object(
        &mut self,
        src_bucket: &String,
        src_object: &String,
        dest_bucket: &String,
        dest_object: String,
    ) -> (r: Option<MemoryObject>)
        requires
            old(self).wf(),
        ensures
            final(self).wf(),
            final(self)@ == store_copy_object(
                old(self)@,
                src_bucket@,
                src_object@,
                dest_bucket@,
                dest_object@,
            ),
            (r is Some <==> object_listed(old(self)@, src_bucket@, src_object@) && old(
                self,
            )@.contains_key(dest_bucket@)),
            (r matches Some(h) ==> h.bucket@ == dest_bucket@ && h.object_name@ == dest_object@
                && h.size == old(self)@[src_bucket@][src_object@].len()),
    {
        let found = find_bucket(&self.buckets, src_bucket);
        proof {
            lemma_bucket_map_contains(self.buckets@, src_bucket@);
        }
        match found {
            None => None,
            Some(i) => {
                proof {
                    lemma_bucket_map_value(self.buckets@, i as int);
                }
                let objs = &self.buckets[i].objects;
                let found_obj = find_object(objs, src_object);
                proof {
                    lemma_obj_map_contains(objs@, src_object@);
                }
                match found_obj {
                    None => None,
                    Some(j) => {
                        proof {
                            lemma_obj_map_value(objs@, j as int);
                        }
                        let content = clone_bytes(&self.buckets[i].objects[j].data);
                        self.static_upload_object(dest_bucket, dest_object, content)
                    },
                }
            },
        }
    }
}

/// Law: uploading payload `p` to an existing bucket and then downloading
/// the full object returns exactly `p`, byte for byte, for any `p`
/// including the empty payload.
pub proof fn lemma_upload_download_round_trip(m: StoreView, b: Seq<char>, k: Seq<char>, p: Seq<u8>)
    requires
        m.contains_key(b),
    ensures
        store_download(store_upload(m, b, k, p), b, k, None, None) == Some(p),
{
}

/// Law: removing an object twice leaves the store exactly as removing it
/// once does, the object is absent either way, and no bucket appears or
/// disappears — later listings see a clean store, not a corrupted one.
pub proof fn lemma_remove_object_idempotent(m: StoreView, b: Seq<char>, k: Seq<char>)
    ensures
        store_remove_object(store_remove_object(m, b, k), b, k) == store_remove_object(m, b, k),
        !object_listed(store_remove_object(m, b, k), b, k),
        store_remove_object(m, b, k).dom() == m.dom(),
        forall|other: Seq<char>|
            m.contains_key(other) && other != b ==> #[trigger] store_remove_object(
                m,
                b,
                k,
            )[other] == m[other],
{
    if m.contains_key(b) {
        let m1 = store_remove_object(m, b, k);
        assert(m1[b].remove(k) =~= m1[b]);
        assert(m1.insert(b, m1[b].remove(k)) =~= m1);
        assert(m1.dom() =~= m.dom());
    }
}

} // verus!
