use vstd::prelude::*;

verus! {

/// The identity a node uses, and whether it has to be written to storage.
pub struct IdentityDecision {
    pub id: String,
    /// True when no identity was stored and `id` is a new one to store.
    pub persist: bool,
}

/// The identity used when `stored` is what storage holds and `fresh` is a newly made one.
pub open spec fn spec_identity(stored: Option<Seq<char>>, fresh: Seq<char>) -> Seq<char> {
    match stored {
        Some(s) => s,
        None => fresh,
    }
}

/// What storage holds after one run.
pub open spec fn stored_after(stored: Option<Seq<char>>, fresh: Seq<char>) -> Option<Seq<char>> {
    Some(spec_identity(stored, fresh))
}

/// The text of an identity that storage may hold.
pub open spec fn text_of(o: Option<String>) -> Option<Seq<char>> {
    match o {
        Some(s) => Some(s@),
        None => None,
    }
}

/// Picks this run's identity: the stored one if there is one, else `fresh`, which must then
/// be stored.
pub fn resolve_identity(stored: Option<String>, fresh: String) -> (r: IdentityDecision)
    ensures
        r.id@ == spec_identity(text_of(stored), fresh@),
        r.persist == stored.is_none(),
{
    match stored {
        Some(s) => IdentityDecision { id: s, persist: false },
        None => IdentityDecision { id: fresh, persist: true },
    }
}

/// Two runs against the same storage, the second seeing what the first left, use the same
/// identity, whatever new identities each made; and the second writes nothing.
pub proof fn lemma_identity_round_trip(stored: Option<Seq<char>>, fresh1: Seq<char>, fresh2: Seq<char>)
    ensures
        spec_identity(stored_after(stored, fresh1), fresh2) == spec_identity(stored, fresh1),
        stored_after(stored_after(stored, fresh1), fresh2) == stored_after(stored, fresh1),
        stored_after(stored, fresh1) is Some,
{
}

} // verus!
