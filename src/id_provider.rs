use vstd::prelude::*;

verus! {

/// The number of characters in a randomly drawn identifier.
pub const ID_LENGTH: usize = 7;

/// A character of the URL-safe alphabet that random identifiers are drawn from.
pub open spec fn is_url_safe_char(c: char) -> bool {
    ('0' <= c && c <= '9') || ('a' <= c && c <= 'z') || ('A' <= c && c <= 'Z') || c == '_'
        || c == '-'
}

/// A source of identifiers for new mappings. It never fails and never checks
/// identifiers for uniqueness.
pub trait IDProvider {
    /// Whether `id` is a token this provider may hand out.
    spec fn may_provide(&self, id: Seq<char>) -> bool;

    /// A fresh token: never empty, and one this provider may hand out.
    fn provide(&self) -> (r: String)
        ensures
            r@.len() > 0,
            self.may_provide(r@),
    ;
}

/// Relies on `nanoid::format` with `nanoid::rngs::default` (bytes drawn from a
/// `StdRng` seeded from the operating system's entropy) and
/// `nanoid::alphabet::SAFE`: the result has exactly `size` characters, all of
/// that URL-safe alphabet. `size` is positive,
/// else the call never returns, and small enough that `8 * size` fits.
#[verifier::external_body]
fn random_id(size: usize) -> (r: String)
    requires
        0 < size <= usize::MAX / 8,
    ensures
        r@.len() == size,
        forall|i: int| 0 <= i < r@.len() ==> is_url_safe_char(#[trigger] r@[i]),
{
    nanoid::format(nanoid::rngs::default, &nanoid::alphabet::SAFE, size)
}

/// Draws random identifiers of `ID_LENGTH` URL-safe characters.
pub struct NanoIDProvider;

impl IDProvider for NanoIDProvider {
    open spec fn may_provide(&self, id: Seq<char>) -> bool {
        &&& id.len() == ID_LENGTH
        &&& forall|i: int| 0 <= i < id.len() ==> is_url_safe_char(#[trigger] id[i])
    }

    fn provide(&self) -> (r: String) {
        random_id(ID_LENGTH)
    }
}

/// Hands out the same identifier on every call.
pub struct FakeIDProvider {
    id: String,
}

impl FakeIDProvider {
    #[verifier::type_invariant]
    spec fn non_empty(&self) -> bool {
        self.id@.len() > 0
    }

    /// The identifier handed out.
    pub closed spec fn id(&self) -> Seq<char> {
        self.id@
    }

    /// A provider that always hands out `id`.
    pub fn new(id: String) -> (r: Self)
        requires
            id@.len() > 0,
        ensures
            r.id() == id@,
    {
        FakeIDProvider { id }
    }
}

impl IDProvider for FakeIDProvider {
    open spec fn may_provide(&self, id: Seq<char>) -> bool {
        id == self.id()
    }

    fn provide(&self) -> (r: String) {
        proof {
            use_type_invariant(self);
        }
        self.id.clone()
    }
}

} // verus!
