use vstd::prelude::*;

use crate::bytes::{bytes_eq, copy_bytes, copy_range};
use crate::error::TeeError;

verus! {

/// One named blob held by the store.
struct StoredObject {
    id: Vec<u8>,
    data: Vec<u8>,
}

/// The logical storage key of a caller-supplied identifier: the identifier
/// without its leading point-format tag byte.
pub open spec fn strip_tag(id: Seq<u8>) -> Seq<u8> {
    id.skip(1)
}

/// The store a sequence of entries denotes: later entries win, though the
/// store never keeps two entries with one id.
spec fn entries_map(s: Seq<StoredObject>) -> Map<Seq<u8>, Seq<u8>>
    decreases s.len(),
{
    if s.len() == 0 {
        Map::empty()
    } else {
        entries_map(s.drop_last()).insert(s.last().id@, s.last().data@)
    }
}

/// No two entries share an id.
spec fn unique_ids(s: Seq<StoredObject>) -> bool {
    forall|i: int, j: int|
        #![trigger s[i], s[j]]
        0 <= i < j < s.len() ==> s[i].id@ != s[j].id@
}

/// What `create` does to the store contents: the object named by the
/// stripped identifier now holds exactly `data`, whether or not it existed.
pub open spec fn create_spec(m: Map<Seq<u8>, Seq<u8>>, id: Seq<u8>, data: Seq<u8>) -> Map<
    Seq<u8>,
    Seq<u8>,
> {
    m.insert(strip_tag(id), data)
}

/// What `read` returns: the stored bytes, or `NotFound`.
pub open spec fn read_spec(m: Map<Seq<u8>, Seq<u8>>, id: Seq<u8>) -> Result<Seq<u8>, TeeError> {
    if m.contains_key(strip_tag(id)) {
        Ok(m[strip_tag(id)])
    } else {
        Err(TeeError::NotFound)
    }
}

/// What `delete` does to the store contents.
pub open spec fn delete_post(m: Map<Seq<u8>, Seq<u8>>, id: Seq<u8>) -> Map<Seq<u8>, Seq<u8>> {
    m.remove(strip_tag(id))
}

/// What `delete` returns: `Ok` exactly when the object existed.
pub open spec fn delete_result(m: Map<Seq<u8>, Seq<u8>>, id: Seq<u8>) -> Result<(), TeeError> {
    if m.contains_key(strip_tag(id)) {
        Ok(())
    } else {
        Err(TeeError::NotFound)
    }
}

/// The persistent key store: private, confidentiality-protected byte blobs,
/// each named by a caller-supplied identifier whose leading tag byte is
/// stripped before use. Its view is the map from stripped identifiers to
/// stored contents.
pub struct KeyStore {
    entries: Vec<StoredObject>,
}

impl View for KeyStore {
    type V = Map<Seq<u8>, Seq<u8>>;

    closed spec fn view(&self) -> Map<Seq<u8>, Seq<u8>> {
        entries_map(self.entries@)
    }
}

proof fn lemma_entries_map_dom(s: Seq<StoredObject>, key: Seq<u8>)
    ensures
        entries_map(s).contains_key(key) <==> (exists|i: int|
            0 <= i < s.len() && (#[trigger] s[i]).id@ == key),
    decreases s.len(),
{
    if s.len() > 0 {
        lemma_entries_map_dom(s.drop_last(), key);
        if s.last().id@ == key {
            assert(s[s.len() - 1].id@ == key);
        } else {
            if entries_map(s).contains_key(key) {
                let i = choose|i: int|
                    0 <= i < s.drop_last().len() && (#[trigger] s.drop_last()[i]).id@ == key;
                assert(s[i].id@ == key);
            }
            if exists|i: int| 0 <= i < s.len() && (#[trigger] s[i]).id@ == key {
                let i = choose|i: int| 0 <= i < s.len() && (#[trigger] s[i]).id@ == key;
                assert(i < s.len() - 1);
                assert(s.drop_last()[i].id@ == key);
            }
        }
    }
}

proof fn lemma_entries_map_value(s: Seq<StoredObject>, i: int)
    requires
        unique_ids(s),
        0 <= i < s.len(),
    ensures
        entries_map(s).contains_key(s[i].id@),
        entries_map(s)[s[i].id@] == s[i].data@,
    decreases s.len(),
{
    if i < s.len() - 1 {
        assert(unique_ids(s.drop_last()));
        lemma_entries_map_value(s.drop_last(), i);
        assert(s.drop_last()[i] == s[i]);
        assert(s[i].id@ != s.last().id@);
    }
}

proof fn lemma_entries_map_push(s: Seq<StoredObject>, obj: StoredObject)
    requires
        unique_ids(s),
        forall|j: int| 0 <= j < s.len() ==> (#[trigger] s[j]).id@ != obj.id@,
    ensures
        entries_map(s.push(obj)) == entries_map(s).insert(obj.id@, obj.data@),
        unique_ids(s.push(obj)),
{
    let t = s.push(obj);
    assert(t.drop_last() =~= s);
    assert(t.last() == obj);
    assert forall|i: int, j: int| 0 <= i < j < t.len() implies (#[trigger] t[i]).id@ != (
    #[trigger] t[j]).id@ by {
        if j < t.len() - 1 {
            assert(s[i].id@ != s[j].id@);
        } else {
            assert(t[i] == s[i]);
        }
    }
}

proof fn lemma_entries_map_remove(s: Seq<StoredObject>, i: int)
    requires
        unique_ids(s),
        0 <= i < s.len(),
    ensures
        entries_map(s.remove(i)) == entries_map(s).remove(s[i].id@),
        unique_ids(s.remove(i)),
        !entries_map(s.remove(i)).contains_key(s[i].id@),
    decreases s.len(),
{
    let key = s[i].id@;
    let t = s.remove(i);
    assert forall|a: int, b: int| 0 <= a < b < t.len() implies (#[trigger] t[a]).id@ != (
    #[trigger] t[b]).id@ by {
        let a2: int = if a < i {
            a
        } else {
            a + 1
        };
        let b2: int = if b < i {
            b
        } else {
            b + 1
        };
        assert(t[a] == s[a2]);
        assert(t[b] == s[b2]);
        assert(s[a2].id@ != s[b2].id@);
    }
    if i == s.len() - 1 {
        assert(t =~= s.drop_last());
        lemma_entries_map_dom(s.drop_last(), key);
        assert(!entries_map(s.drop_last()).contains_key(key)) by {
            if exists|j: int| 0 <= j < s.drop_last().len() && (#[trigger] s.drop_last()[j]).id@
                == key {
                let j = choose|j: int|
                    0 <= j < s.drop_last().len() && (#[trigger] s.drop_last()[j]).id@ == key;
                assert(s[j].id@ == s[i].id@);
                assert(false);
            }
        }
        assert(entries_map(s).remove(key) =~= entries_map(s.drop_last()));
    } else {
        assert(unique_ids(s.drop_last()));
        lemma_entries_map_remove(s.drop_last(), i);
        assert(t.drop_last() =~= s.drop_last().remove(i));
        assert(t.last() == s.last());
        assert(key == s.drop_last()[i].id@);
        assert(s.last().id@ != key);
        assert(entries_map(t) == entries_map(s.drop_last()).remove(key).insert(
            s.last().id@,
            s.last().data@,
        ));
        assert(entries_map(s.drop_last()).remove(key).insert(s.last().id@, s.last().data@)
            =~= entries_map(s.drop_last()).insert(s.last().id@, s.last().data@).remove(key));
        lemma_entries_map_dom(t, key);
        assert forall|j: int| 0 <= j < t.len() implies (#[trigger] t[j]).id@ != key by {
            let j2: int = if j < i {
                j
            } else {
                j + 1
            };
            assert(t[j] == s[j2]);
            assert(j2 != i);
        }
    }
}

impl KeyStore {
    /// A store that holds no objects.
    pub fn new() -> (r: KeyStore)
        ensures
            r.wf(),
            r@ == Map::<Seq<u8>, Seq<u8>>::empty(),
    {
        KeyStore { entries: Vec::new() }
    }

    /// The store's internal invariant: entry ids are unique.
    pub closed spec fn wf(&self) -> bool {
        unique_ids(self.entries@)
    }

    /// The index of the entry named `key`, if one exists.
    fn find_index(&self, key: &Vec<u8>) -> (r: Option<usize>)
        ensures
            match r {
                Some(i) => i < self.entries@.len() && self.entries@[i as int].id@ == key@,
                None => forall|j: int|
                    0 <= j < self.entries@.len() ==> (#[trigger] self.entries@[j]).id@ != key@,
            },
    {
        let mut i: usize = 0;
        while i < self.entries.len()
            invariant
                i <= self.entries@.len(),
                forall|j: int| 0 <= j < i ==> (#[trigger] self.entries@[j]).id@ != key@,
            decreases self.entries@.len() - i,
        {
            if bytes_eq(&self.entries[i].id, key) {
                return Some(i);
            }
            i += 1;
        }
        None
    }

    /// Creates or overwrites the private object named by `object_id` (with
    /// its leading tag byte stripped) so that it holds exactly `data`. The
    /// old contents, if any, are replaced whole: no mixture of old and new
    /// bytes is ever visible to a later read.
    pub fn create_raw_object(&mut self, object_id: &Vec<u8>, data: &Vec<u8>) -> (r: Result<
        (),
        TeeError,
    >)
        requires
            old(self).wf(),
            object_id@.len() >= 1,
        ensures
            final(self).wf(),
            r is Ok,
            final(self)@ == create_spec(old(self)@, object_id@, data@),
    {
        let key = copy_range(object_id, 1, object_id.len());
        proof {
            assert(key@ =~= strip_tag(object_id@));
        }
        match self.find_index(&key) {
            Some(i) => {
                proof {
                    lemma_entries_map_remove(self.entries@, i as int);
                }
                self.entries.remove(i);
            },
            None => {
            },
        }
        proof {
            lemma_entries_map_dom(self.entries@, key@);
        }
        let obj = StoredObject { id: key, data: copy_bytes(data) };
        proof {
            lemma_entries_map_push(self.entries@, obj);
        }
        self.entries.push(obj);
        proof {
            assert(final(self)@ =~= create_spec(old(self)@, object_id@, data@));
        }
        Ok(())
    }

    /// Opens the object named by `object_id` (tag byte stripped) and returns
    /// a copy of exactly the bytes it holds; `NotFound` if no such object
    /// exists.
    pub fn read_raw_object(&self, object_id: &Vec<u8>) -> (r: Result<Vec<u8>, TeeError>)
        requires
            self.wf(),
            object_id@.len() >= 1,
        ensures
            match r {
                Ok(d) => read_spec(self@, object_id@) == Ok::<Seq<u8>, TeeError>(d@),
                Err(e) => read_spec(self@, object_id@) == Err::<Seq<u8>, TeeError>(e),
            },
    {
        let key = copy_range(object_id, 1, object_id.len());
        proof {
            assert(key@ =~= strip_tag(object_id@));
        }
        match self.find_index(&key) {
            Some(i) => {
                proof {
                    lemma_entries_map_value(self.entries@, i as int);
                }
                Ok(copy_bytes(&self.entries[i].data))
            },
            None => {
                proof {
                    lemma_entries_map_dom(self.entries@, key@);
                }
                Err(TeeError::NotFound)
            },
        }
    }

    /// Removes the object named by `object_id` (tag byte stripped);
    /// `NotFound` if it does not exist.
    pub fn delete_object(&mut self, object_id: &Vec<u8>) -> (r: Result<(), TeeError>)
        requires
            old(self).wf(),
            object_id@.len() >= 1,
        ensures
            final(self).wf(),
            r == delete_result(old(self)@, object_id@),
            r is Ok ==> final(self)@ == delete_post(old(self)@, object_id@),
            r is Err ==> final(self)@ == old(self)@,
    {
        let key = copy_range(object_id, 1, object_id.len());
        proof {
            assert(key@ =~= strip_tag(object_id@));
        }
        match self.find_index(&key) {
            Some(i) => {
                proof {
                    lemma_entries_map_value(self.entries@, i as int);
                    lemma_entries_map_remove(self.entries@, i as int);
                }
                self.entries.remove(i);
                Ok(())
            },
            None => {
                proof {
                    lemma_entries_map_dom(self.entries@, key@);
                }
                Err(TeeError::NotFound)
            },
        }
    }
}

/// Creating an object and immediately reading it back under the same
/// identifier yields exactly the bytes that were written.
pub proof fn lemma_create_then_read(m: Map<Seq<u8>, Seq<u8>>, id: Seq<u8>, data: Seq<u8>)
    ensures
        read_spec(create_spec(m, id, data), id) == Ok::<Seq<u8>, TeeError>(data),
{
}

/// Re-creating an existing identifier with new data replaces the old object
/// whole: a later read returns only the new data, and the store is as if the
/// old create had never happened.
pub proof fn lemma_recreate_overwrites(
    m: Map<Seq<u8>, Seq<u8>>,
    id: Seq<u8>,
    data1: Seq<u8>,
    data2: Seq<u8>,
)
    ensures
        read_spec(create_spec(create_spec(m, id, data1), id, data2), id) == Ok::<
            Seq<u8>,
            TeeError,
        >(data2),
        create_spec(create_spec(m, id, data1), id, data2) == create_spec(m, id, data2),
{
    assert(create_spec(create_spec(m, id, data1), id, data2) =~= create_spec(m, id, data2));
}

/// After a delete, a read of the same identifier misses, and a second delete
/// of the same identifier fails with `NotFound` as well.
pub proof fn lemma_delete_then_read(m: Map<Seq<u8>, Seq<u8>>, id: Seq<u8>)
    ensures
        read_spec(delete_post(m, id), id) == Err::<Seq<u8>, TeeError>(TeeError::NotFound),
        delete_result(delete_post(m, id), id) == Err::<(), TeeError>(TeeError::NotFound),
{
}

} // verus!
