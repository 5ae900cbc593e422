use vstd::prelude::*;

use crate::canonical::{canonicalize, parsed_url};
use crate::error::AppError;
use crate::id_provider::IDProvider;
use crate::store::UrlStore;

verus! {

/// A repository that new mappings can be saved to. A later save under an
/// identifier replaces the earlier one.
pub trait CreateShortUrlRepository: UrlStore {
    /// Stores `full_url` under `id`. On failure the mappings are unchanged.
    fn save(&mut self, full_url: String, id: String) -> (r: Result<(), AppError>)
        ensures
            r is Ok ==> final(self).mappings() == old(self).mappings().insert(id@, full_url@),
            r matches Err(e) ==> e is StorageError && final(self).mappings() == old(
                self,
            ).mappings(),
            old(self).infallible() ==> r is Ok,
            final(self).infallible() == old(self).infallible(),
    ;
}

/// The mappings held after `raw` is shortened to `id` on `store`: the canonical
/// form of `raw` is stored under `id` when `raw` is a valid absolute URL.
pub open spec fn stored_after_create(
    store: Map<Seq<char>, Seq<char>>,
    raw: Seq<char>,
    id: Seq<char>,
) -> Map<Seq<char>, Seq<char>> {
    match parsed_url(raw) {
        Some(c) => store.insert(id, c),
        None => store,
    }
}

/// Shortens URLs: validates, draws an identifier, and saves the mapping.
pub struct CreateShortUrlCommand<I: IDProvider, R: CreateShortUrlRepository> {
    id_provider: I,
    repo: R,
}

impl<I: IDProvider, R: CreateShortUrlRepository> CreateShortUrlCommand<I, R> {
    /// The identifier source.
    pub closed spec fn provider(&self) -> I {
        self.id_provider
    }

    /// The repository mappings are saved to.
    pub closed spec fn repository(&self) -> R {
        self.repo
    }

    /// A command drawing identifiers from `id_provider` and saving to `repo`.
    pub fn new(id_provider: I, repo: R) -> (r: Self)
        ensures
            r.provider() == id_provider,
            r.repository() == repo,
    {
        CreateShortUrlCommand { id_provider, repo }
    }

    /// The repository mappings are saved to.
    pub fn repo(&self) -> (r: &R)
        ensures
            *r == self.repository(),
    {
        &self.repo
    }

    /// Gives up the command and hands back its repository.
    pub fn into_repo(self) -> (r: R)
        ensures
            r == self.repository(),
    {
        self.repo
    }

    /// Shortens `full_url`: its canonical form is saved under a new identifier,
    /// which is returned. An invalid URL is rejected before an identifier is
    /// drawn or the repository is touched; a failed save is passed on.
    pub fn execute(&mut self, full_url: &str) -> (r: Result<String, AppError>)
        ensures
            final(self).provider() == old(self).provider(),
            final(self).repository().infallible() == old(self).repository().infallible(),
            parsed_url(full_url@) is None ==> r == Err::<String, AppError>(AppError::URLParseError)
                && *final(self) == *old(self),
            r matches Ok(id) ==> {
                &&& parsed_url(full_url@) is Some
                &&& id@.len() > 0
                &&& old(self).provider().may_provide(id@)
                &&& final(self).repository().mappings() == stored_after_create(
                    old(self).repository().mappings(),
                    full_url@,
                    id@,
                )
            },
            r matches Err(e) ==> (e is URLParseError && parsed_url(full_url@) is None) || (
            e is StorageError && parsed_url(full_url@) is Some && final(self).repository().mappings()
                == old(self).repository().mappings()),
            parsed_url(full_url@) is Some && old(self).repository().infallible() ==> r is Ok,
    {
        let canonical = match canonicalize(full_url) {
            Ok(c) => c,
            Err(e) => {
                return Err(e);
            },
        };
        let id = self.id_provider.provide();
        self.save_mapping(canonical, id)
    }

    /// Saves `canonical` under the drawn identifier `id` in one attempt, and
    /// returns `id` itself; a failed save is passed on unchanged.
    pub fn save_mapping(&mut self, canonical: String, id: String) -> (r: Result<String, AppError>)
        ensures
            final(self).provider() == old(self).provider(),
            final(self).repository().infallible() == old(self).repository().infallible(),
            r matches Ok(v) ==> v@ == id@ && final(self).repository().mappings() == old(
                self,
            ).repository().mappings().insert(id@, canonical@),
            r matches Err(e) ==> e is StorageError && final(self).repository().mappings() == old(
                self,
            ).repository().mappings(),
            old(self).repository().infallible() ==> r is Ok,
    {
        match self.repo.save(canonical, id.clone()) {
            Ok(()) => Ok(id),
            Err(e) => Err(e),
        }
    }
}

} // verus!
