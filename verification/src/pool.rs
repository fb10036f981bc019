//! The connection pool: the client handles of a run, by key.
//!
//! Every iteration of a run shares one pool. A handle is made when its key is
//! first asked for, and it stays in the pool until the run ends. The caller
//! guards the pool by a lock, and holds the lock for one call and no longer.
use vstd::prelude::*;

verus! {

/// The client handles of a run, each under the key that it was made for.
pub struct Pool<H> {
    keys: Vec<String>,
    handles: Vec<H>,
}

impl<H> Pool<H> {
    /// Whether the pool holds a handle under `key` at position `i`.
    pub closed spec fn holds_at(&self, i: int, key: Seq<char>) -> bool {
        0 <= i < self.keys@.len() && self.keys@[i]@ == key
    }

    /// The invariant of a pool: every key has its handle, and no key occurs
    /// twice.
    pub closed spec fn wf(&self) -> bool {
        &&& self.keys@.len() == self.handles@.len()
        &&& forall|i: int, j: int|
            0 <= i < j < self.keys@.len() ==> self.keys@[i]@ != self.keys@[j]@
    }
}

impl<H> View for Pool<H> {
    type V = Map<Seq<char>, H>;

    /// The handles of the pool, by key.
    closed spec fn view(&self) -> Map<Seq<char>, H> {
        Map::new(
            |key: Seq<char>| exists|i: int| self.holds_at(i, key),
            |key: Seq<char>| self.handles@[choose|i: int| self.holds_at(i, key)],
        )
    }
}

impl<H> Pool<H> {
    /// Makes a pool without handles.
    pub fn new() -> (pool: Self)
        ensures
            pool.wf(),
            pool@ == Map::<Seq<char>, H>::empty(),
    {
        let pool = Pool { keys: Vec::new(), handles: Vec::new() };
        assert(pool@ =~= Map::<Seq<char>, H>::empty());
        pool
    }

    /// How many handles the pool holds.
    pub fn len(&self) -> (count: usize)
        requires
            self.wf(),
        ensures
            count == self@.len(),
            self@.dom().finite(),
    {
        proof {
            self.lemma_len();
        }
        self.keys.len()
    }

    proof fn lemma_len(&self)
        requires
            self.wf(),
        ensures
            self@.dom().finite(),
            self@.dom().len() == self.keys@.len(),
    {
        let keys = self.keys@.map_values(|key: String| key@);
        assert(keys.no_duplicates());
        keys.unique_seq_to_set();
        assert(keys.to_set() =~= self@.dom()) by {
            assert forall|key: Seq<char>| keys.to_set().contains(key) implies self@.dom().contains(
                key,
            ) by {
                let i = choose|i: int| 0 <= i < keys.len() && keys[i] == key;
                assert(self.holds_at(i, key));
            }
            assert forall|key: Seq<char>| self@.dom().contains(key) implies keys.to_set().contains(
                key,
            ) by {
                let i = choose|i: int| self.holds_at(i, key);
                assert(keys[i] == key);
            }
        }
    }

    /// The position of the handle under `key`, if the pool holds one.
    fn position(&self, key: &String) -> (found: Option<usize>)
        requires
            self.wf(),
        ensures
            found is Some ==> self.holds_at(found->Some_0 as int, key@),
            found is None ==> !self@.contains_key(key@),
    {
        let mut i: usize = 0;
        while i < self.keys.len()
            invariant
                i <= self.keys@.len(),
                forall|j: int| 0 <= j < i ==> !self.holds_at(j, key@),
            decreases self.keys@.len() - i,
        {
            if self.keys[i] == *key {
                return Some(i);
            }
            i = i + 1;
        }
        None
    }

    /// The handle under `key`, if the pool holds one.
    pub fn get(&self, key: &str) -> (handle: Option<&H>)
        requires
            self.wf(),
        ensures
            handle is Some <==> self@.contains_key(key@),
            handle is Some ==> *handle->Some_0 == self@[key@],
    {
        let owned = key.to_owned();
        match self.position(&owned) {
            Some(i) => {
                proof {
                    self.lemma_handle_at(i as int, key@);
                }
                Some(&self.handles[i])
            },
            None => None,
        }
    }

    proof fn lemma_handle_at(&self, i: int, key: Seq<char>)
        requires
            self.wf(),
            self.holds_at(i, key),
        ensures
            self@.contains_key(key),
            self@[key] == self.handles@[i],
    {
        let j = choose|j: int| self.holds_at(j, key);
        assert(i == j) by {
            if i < j {
                assert(self.keys@[i]@ != self.keys@[j]@);
            } else if j < i {
                assert(self.keys@[j]@ != self.keys@[i]@);
            }
        }
    }

    /// The handle under `key`. If the pool holds none, `create` makes one,
    /// which then stays in the pool. Where `create` fails, the pool is left
    /// as it was. A handle that the pool holds is never made again and
    /// never leaves.
    pub fn get_or_create<E, F: FnOnce() -> Result<H, E>>(&mut self, key: &str, create: F) -> (handle:
        Result<&H, E>)
        requires
            old(self).wf(),
            !old(self)@.contains_key(key@) ==> create.requires(()),
        ensures
            final(self).wf(),
            forall|other: Seq<char>| #[trigger]
                old(self)@.contains_key(other) ==> final(self)@.contains_key(other)
                    && final(self)@[other] == old(self)@[other],
            old(self)@.contains_key(key@) ==> handle is Ok && *handle->Ok_0 == old(self)@[key@]
                && final(self)@ == old(self)@,
            !old(self)@.contains_key(key@) && handle is Ok ==> create.ensures(
                (),
                Ok(*handle->Ok_0),
            ) && final(self)@ == old(self)@.insert(key@, *handle->Ok_0),
            !old(self)@.contains_key(key@) && handle is Err ==> create.ensures(
                (),
                Err(handle->Err_0),
            ) && final(self)@ == old(self)@,
    {
        let owned = key.to_owned();
        match self.position(&owned) {
            Some(i) => {
                proof {
                    self.lemma_handle_at(i as int, key@);
                }
                Ok(&self.handles[i])
            },
            None => {
                match create() {
                    Ok(fresh) => {
                        let last = self.handles.len();
                        self.add(owned, fresh);
                        proof {
                            self.lemma_handle_at(last as int, key@);
                        }
                        Ok(&self.handles[last])
                    },
                    Err(error) => Err(error),
                }
            },
        }
    }

    /// Puts `handle` under `key`, which the pool does not hold yet.
    fn add(&mut self, key: String, handle: H)
        requires
            old(self).wf(),
            !old(self)@.contains_key(key@),
        ensures
            final(self).wf(),
            final(self)@ == old(self)@.insert(key@, handle),
            final(self).holds_at(old(self).keys@.len() as int, key@),
            final(self).handles@ == old(self).handles@.push(handle),
    {
        let ghost before = *self;
        self.keys.push(key);
        self.handles.push(handle);
        proof {
            let last = before.keys@.len() as int;
            assert forall|i: int, j: int| 0 <= i < j < self.keys@.len() implies self.keys@[i]@
                != self.keys@[j]@ by {
                if j == last {
                    assert(!before.holds_at(i, key@)) by {
                        if before.holds_at(i, key@) {
                            before.lemma_handle_at(i, key@);
                        }
                    }
                } else {
                    assert(before.keys@[i]@ != before.keys@[j]@);
                }
            }
            assert(self.holds_at(last, key@));
            assert forall|other: Seq<char>| #[trigger]
                self@.contains_key(other) == before@.insert(key@, handle).contains_key(
                    other,
                ) by {
                if before@.contains_key(other) {
                    let i = choose|i: int| before.holds_at(i, other);
                    assert(self.holds_at(i, other));
                }
                if self@.contains_key(other) && other != key@ {
                    let i = choose|i: int| self.holds_at(i, other);
                    assert(before.holds_at(i, other));
                }
            }
            assert forall|other: Seq<char>| #[trigger]
                self@.contains_key(other) implies self@[other] == before@.insert(key@, handle)[other] by {
                if other == key@ {
                    self.lemma_handle_at(last, other);
                } else {
                    let i = choose|i: int| before.holds_at(i, other);
                    assert(self.holds_at(i, other));
                    self.lemma_handle_at(i, other);
                    before.lemma_handle_at(i, other);
                }
            }
            assert(self@ =~= before@.insert(key@, handle));
        }
    }
}

} // verus!
