//! What a lookup's answer means, and how the verdict is kept.
//!
//! The verdict is resolved lazily and once: the first answer is kept, and no
//! later answer changes it. A [`Resolution`] is the cell that keeps it.
//! Callers that share one between threads guard it with a lock, held over
//! the lookup, so that the first caller's answer is the one kept.

use vstd::prelude::*;

verus! {

/// Whether a lookup that handed back `address` found the symbol. A lookup
/// that fails hands back the null address; every other address is a find.
pub open spec fn found(address: usize) -> bool {
    address != 0
}

/// The verdict held once a lookup has answered `address`, where `before` was
/// held until then: a verdict that is there stays, and an open one is
/// settled by the answer.
pub open spec fn settled(before: Option<bool>, address: usize) -> Option<bool> {
    match before {
        Some(_) => before,
        None => Some(found(address)),
    }
}

/// The verdict held after a run of lookups that answered `addresses`, in
/// that order.
pub open spec fn settled_all(before: Option<bool>, addresses: Seq<usize>) -> Option<bool>
    decreases addresses.len(),
{
    if addresses.len() == 0 {
        before
    } else {
        settled_all(settled(before, addresses.first()), addresses.drop_first())
    }
}

/// The verdict on the marker's presence: open until the first lookup has
/// answered, fixed from then on.
#[derive(Clone, Copy, Debug)]
pub struct Resolution {
    verdict: Option<bool>,
}

impl View for Resolution {
    type V = Option<bool>;

    closed spec fn view(&self) -> Option<bool> {
        self.verdict
    }
}

impl Resolution {
    /// A resolution with the verdict still open.
    pub fn new() -> (fresh: Resolution)
        ensures
            fresh@ is None,
    {
        Resolution { verdict: None }
    }

    /// The verdict, if a lookup has answered yet.
    pub fn verdict(&self) -> (verdict: Option<bool>)
        ensures
            verdict == self@,
    {
        self.verdict
    }

    /// Takes note that a lookup answered `address`, and gives the verdict
    /// held from now on. Only the first answer counts.
    pub fn record(&mut self, address: usize) -> (present: bool)
        ensures
            final(self)@ == settled(old(self)@, address),
            final(self)@ == Some(present),
    {
        match self.verdict {
            Some(known) => known,
            None => {
                let present: bool = address != 0;
                self.verdict = Some(present);
                present
            },
        }
    }
}

/// An open verdict is settled by the lookup alone: as absent exactly when the
/// lookup failed, and as present exactly when it resolved an address. So the
/// marker is never reported present unless the process holds its symbol.
pub proof fn lemma_open_verdict_follows_lookup(address: usize)
    ensures
        settled(None, address) == Some(false) <==> address == 0,
        settled(None, address) == Some(true) <==> address != 0,
{
}

/// A verdict, once held, is final: whatever a second lookup answers, the
/// verdict is the one that the first lookup left.
pub proof fn lemma_verdict_is_final(before: Option<bool>, first: usize, second: usize)
    ensures
        settled(before, first) is Some,
        settled(settled(before, first), second) == settled(before, first),
{
}

/// Repeated queries agree: after any run of lookups, however each of them
/// answered, the verdict is the one that the first of them left. From the
/// first answer on a verdict is held, so that of any run of queries only the
/// first can find it open and have something to look up.
pub proof fn lemma_repeated_queries_agree(before: Option<bool>, addresses: Seq<usize>)
    requires
        addresses.len() > 0,
    ensures
        settled_all(before, addresses) is Some,
        settled_all(before, addresses) == settled(before, addresses.first()),
    decreases addresses.len(),
{
    let first = settled(before, addresses.first());
    let rest = addresses.drop_first();
    if rest.len() > 0 {
        lemma_repeated_queries_agree(first, rest);
        lemma_verdict_is_final(before, addresses.first(), rest.first());
    } else {
        assert(settled_all(first, rest) == first);
    }
}

} // verus!
