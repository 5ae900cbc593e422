use vstd::prelude::*;

use crate::error::AppError;
use crate::store::{lookup_outcome, result_view, UrlStore};

verus! {

/// A repository that mappings can be read from.
pub trait GetFullUrlRepository: UrlStore {
    /// The target stored under `id`; `NotFoundError` when there is none.
    fn get(&self, id: &str) -> (r: Result<String, AppError>)
        ensures
            r matches Ok(v) ==> self.mappings().contains_key(id@) && v@ == self.mappings()[id@],
            r matches Err(e) ==> e is StorageError || (e is NotFoundError
                && !self.mappings().contains_key(id@)),
            self.infallible() ==> result_view(r) == lookup_outcome(self.mappings(), id@),
    ;
}

/// Looks up the full URL stored under an identifier.
pub struct GetFullUrlQuery<R: GetFullUrlRepository> {
    repo: R,
}

impl<R: GetFullUrlRepository> GetFullUrlQuery<R> {
    /// The repository mappings are read from.
    pub closed spec fn repository(&self) -> R {
        self.repo
    }

    /// A query reading from `repo`.
    pub fn new(repo: R) -> (r: Self)
        ensures
            r.repository() == repo,
    {
        GetFullUrlQuery { repo }
    }

    /// The full URL stored under `id`; `NotFoundError` when there is none.
    pub fn execute(&self, id: &str) -> (r: Result<String, AppError>)
        ensures
            r matches Ok(v) ==> self.repository().mappings().contains_key(id@) && v@
                == self.repository().mappings()[id@],
            r matches Err(e) ==> e is StorageError || (e is NotFoundError
                && !self.repository().mappings().contains_key(id@)),
            self.repository().infallible() ==> result_view(r) == lookup_outcome(
                self.repository().mappings(),
                id@,
            ),
    {
        self.repo.get(id)
    }
}

} // verus!
