use vstd::prelude::*;

use crate::command::CreateShortUrlRepository;
use crate::error::AppError;
use crate::query::GetFullUrlRepository;

verus! {

/// What every repository holds: a set of mappings from identifier to target URL.
pub trait UrlStore {
    /// The mappings held, from identifier to target URL.
    spec fn mappings(&self) -> Map<Seq<char>, Seq<char>>;

    /// Whether the store's operations never fail (true of a store held in memory).
    spec fn infallible(&self) -> bool;
}

/// The answer a lookup of `id` gives on `store` when the store does not fail.
pub open spec fn lookup_outcome(store: Map<Seq<char>, Seq<char>>, id: Seq<char>) -> Result<
    Seq<char>,
    AppError,
> {
    if store.contains_key(id) {
        Ok(store[id])
    } else {
        Err(AppError::NotFoundError)
    }
}

/// A lookup result seen through the view of its string.
pub open spec fn result_view(r: Result<String, AppError>) -> Result<Seq<char>, AppError> {
    match r {
        Ok(s) => Ok(s@),
        Err(e) => Err(e),
    }
}

/// A repository held in memory: one entry per identifier, later saves of an
/// identifier replacing earlier ones. Callers that share it between tasks hold
/// it behind a lock of their own.
pub struct InMemoryRepository {
    entries: Vec<(String, String)>,
    model: Ghost<Map<Seq<char>, Seq<char>>>,
}

impl InMemoryRepository {
    #[verifier::type_invariant]
    spec fn well_formed(&self) -> bool {
        models(self.entries@, self.model@)
    }

    /// The mappings held, from identifier to target URL.
    pub closed spec fn view(&self) -> Map<Seq<char>, Seq<char>> {
        self.model@
    }

    /// An empty repository.
    pub fn new() -> (r: Self)
        ensures
            r.view() == Map::<Seq<char>, Seq<char>>::empty(),
    {
        InMemoryRepository { entries: Vec::new(), model: Ghost(Map::empty()) }
    }

    /// The number of identifiers held.
    pub fn len(&self) -> (r: usize)
        ensures
            r == self.view().len(),
    {
        proof {
            use_type_invariant(self);
        }
        self.entries.len()
    }

    /// Stores `target` under `id`, replacing what `id` held before.
    pub fn insert(&mut self, id: String, target: String)
        ensures
            final(self).view() == old(self).view().insert(id@, target@),
    {
        // The entries are taken out whole, so that the invariant is
        // re-established once, when the repository is put back together.
        let mut taken = InMemoryRepository::new();
        core::mem::swap(self, &mut taken);
        proof {
            use_type_invariant(&taken);
        }
        let ghost old_model = taken.model@;
        let ghost new_model = old_model.insert(id@, target@);
        let mut entries = taken.entries;
        let ghost old_entries = entries@;
        match position(&entries, &id) {
            Some(i) => {
                proof {
                    assert(new_model.dom() =~= old_model.dom());
                }
                entries.set(i, (id, target));
                assert(forall|j: int|
                    0 <= j < entries@.len() ==> #[trigger] entries@[j].0@ == old_entries[j].0@);
                assert forall|k: Seq<char>| #[trigger] new_model.contains_key(k) implies exists|
                    j: int,
                | 0 <= j < entries@.len() && #[trigger] entries@[j].0@ == k by {
                    let w = choose|j: int| 0 <= j < old_entries.len() && #[trigger] old_entries[j].0@ == k;
                    assert(entries@[w].0@ == k);
                }
            },
            None => {
                proof {
                    if old_model.contains_key(id@) {
                        let w = choose|j: int|
                            0 <= j < old_entries.len() && #[trigger] old_entries[j].0@ == id@;
                        assert(old_entries[w].0@ != id@);
                    }
                    assert(new_model.dom() =~= old_model.dom().insert(id@));
                }
                entries.push((id, target));
                assert(forall|j: int|
                    0 <= j < old_entries.len() ==> #[trigger] entries@[j] == old_entries[j]);
                assert(entries@[old_entries.len() as int].0@ == id@);
                assert forall|k: Seq<char>| #[trigger] new_model.contains_key(k) implies exists|
                    j: int,
                | 0 <= j < entries@.len() && #[trigger] entries@[j].0@ == k by {
                    if k != id@ {
                        let w = choose|j: int| 0 <= j < old_entries.len() && #[trigger] old_entries[j].0@ == k;
                        assert(entries@[w].0@ == k);
                    }
                }
            },
        }
        *self = InMemoryRepository { entries, model: Ghost(new_model) };
    }

    /// The target stored under `id`, if any.
    pub fn lookup(&self, id: &str) -> (r: Result<String, AppError>)
        ensures
            result_view(r) == lookup_outcome(self.view(), id@),
    {
        proof {
            use_type_invariant(self);
        }
        let key = id.to_owned();
        match position(&self.entries, &key) {
            Some(i) => Ok(self.entries[i].1.clone()),
            None => Err(AppError::NotFoundError),
        }
    }
}

/// `entries` holds one entry per key of `model`, with the key's target.
spec fn models(entries: Seq<(String, String)>, model: Map<Seq<char>, Seq<char>>) -> bool {
    &&& model.dom().finite()
    &&& model.len() == entries.len()
    &&& forall|i: int|
        0 <= i < entries.len() ==> {
            &&& #[trigger] model.contains_key(entries[i].0@)
            &&& model[entries[i].0@] == entries[i].1@
        }
    &&& forall|k: Seq<char>|
        #[trigger] model.contains_key(k) ==> exists|i: int|
            0 <= i < entries.len() && #[trigger] entries[i].0@ == k
    &&& forall|i: int, j: int|
        0 <= i < entries.len() && 0 <= j < entries.len() && i != j
            ==> #[trigger] entries[i].0@ != #[trigger] entries[j].0@
}

/// The position of `id` among the keys of `entries`, if it is there.
fn position(entries: &Vec<(String, String)>, id: &String) -> (r: Option<usize>)
    ensures
        match r {
            Some(i) => i < entries@.len() && entries@[i as int].0@ == id@,
            None => forall|j: int| 0 <= j < entries@.len() ==> #[trigger] entries@[j].0@ != id@,
        },
{
    let mut i: usize = 0;
    while i < entries.len()
        invariant
            i <= entries@.len(),
            forall|j: int| 0 <= j < i ==> #[trigger] entries@[j].0@ != id@,
        decreases entries@.len() - i,
    {
        if entries[i].0 == *id {
            return Some(i);
        }
        i = i + 1;
    }
    None
}

impl UrlStore for InMemoryRepository {
    open spec fn mappings(&self) -> Map<Seq<char>, Seq<char>> {
        self.view()
    }

    open spec fn infallible(&self) -> bool {
        true
    }
}

impl CreateShortUrlRepository for InMemoryRepository {
    fn save(&mut self, full_url: String, id: String) -> (r: Result<(), AppError>) {
        self.insert(id, full_url);
        Ok(())
    }
}

impl GetFullUrlRepository for InMemoryRepository {
    fn get(&self, id: &str) -> (r: Result<String, AppError>) {
        self.lookup(id)
    }
}

} // verus!
