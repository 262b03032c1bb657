//! What a zome's handlers share: DHT addresses, the error a zome call
//! answers with, and the selection of the records that a link query found.
use vstd::prelude::*;

verus! {

/// The address of an entry in the DHT.
pub struct Address(pub String);

impl Address {
    /// A copy of this address.
    pub fn duplicate(&self) -> (r: Address)
        ensures
            r == *self,
    {
        Address(self.0.clone())
    }
}

/// A copy of a list of addresses.
pub fn copy_addresses(v: &Vec<Address>) -> (r: Vec<Address>)
    ensures
        r@ == v@,
{
    let mut out: Vec<Address> = Vec::new();
    let n = v.len();
    for i in 0..n
        invariant
            n == v@.len(),
            out@ == v@.take(i as int),
    {
        out.push(v[i].duplicate());
        proof {
            assert(v@.take(i + 1) =~= v@.take(i as int).push(v@[i as int]));
        }
    }
    proof {
        assert(v@.take(n as int) =~= v@);
    }
    out
}

/// The addresses an optional list holds, where there is a list.
pub open spec fn addresses_view(v: Option<Vec<Address>>) -> Option<Seq<Address>> {
    match v {
        Some(list) => Some(list@),
        None => None,
    }
}

/// The error a zome call answers with.
pub enum ZomeApiError {
    /// A failure described by a message.
    Internal(String),
    /// The called zome function does not exist.
    FunctionNotImplemented,
    /// No entry is stored at the requested address.
    HashNotFound,
    /// The DHT refused an entry as invalid.
    ValidationFailed(String),
    /// The call did not finish in time.
    Timeout,
}

/// What an error says: its kind and, where it has one, its message.
pub enum ZomeErrorView {
    Internal(Seq<char>),
    FunctionNotImplemented,
    HashNotFound,
    ValidationFailed(Seq<char>),
    Timeout,
}

impl View for ZomeApiError {
    type V = ZomeErrorView;

    open spec fn view(&self) -> ZomeErrorView {
        match self {
            ZomeApiError::Internal(m) => ZomeErrorView::Internal(m@),
            ZomeApiError::FunctionNotImplemented => ZomeErrorView::FunctionNotImplemented,
            ZomeApiError::HashNotFound => ZomeErrorView::HashNotFound,
            ZomeApiError::ValidationFailed(m) => ZomeErrorView::ValidationFailed(m@),
            ZomeApiError::Timeout => ZomeErrorView::Timeout,
        }
    }
}

/// The records a link query yields, in order, with each base address that
/// has no readable entry left out.
pub open spec fn loaded_entries<K, E>(s: Seq<(K, Option<E>)>) -> Seq<(K, E)>
    decreases s.len(),
{
    if s.len() == 0 {
        Seq::empty()
    } else {
        let rest = loaded_entries(s.drop_last());
        match s.last().1 {
            Some(e) => rest.push((s.last().0, e)),
            None => rest,
        }
    }
}

/// Keeps the records whose entry could be read, in their order, and drops
/// each base address whose entry was not found.
pub fn keep_loaded<K, E>(entries: Vec<(K, Option<E>)>) -> (r: Vec<(K, E)>)
    ensures
        r@ == loaded_entries(entries@),
{
    let ghost all = entries@;
    let mut out: Vec<(K, E)> = Vec::new();
    for item in it: entries
        invariant
            it.seq() == all,
            out@ == loaded_entries(all.take(it.index() as int)),
    {
        let ghost i = it.index() as int;
        proof {
            assert(all.take(i + 1).drop_last() =~= all.take(i));
        }
        let (k, maybe) = item;
        match maybe {
            Some(e) => {
                out.push((k, e));
            },
            None => {},
        }
    }
    proof {
        assert(all.take(all.len() as int) =~= all);
    }
    out
}

/// Every record kept has its entry, and no more records come out than went in.
pub proof fn lemma_loaded_entries_shorter<K, E>(s: Seq<(K, Option<E>)>)
    ensures
        loaded_entries(s).len() <= s.len(),
    decreases s.len(),
{
    if s.len() > 0 {
        lemma_loaded_entries_shorter(s.drop_last());
    }
}

/// Where every base address has its entry, every record comes out, in order.
pub proof fn lemma_all_loaded_kept<K, E>(s: Seq<(K, Option<E>)>)
    requires
        forall|i: int| 0 <= i < s.len() ==> (#[trigger] s[i]).1 is Some,
    ensures
        loaded_entries(s).len() == s.len(),
        forall|i: int| 0 <= i < s.len() ==> (#[trigger] loaded_entries(s)[i]) == (s[i].0, s[i].1->0),
    decreases s.len(),
{
    if s.len() > 0 {
        let t = s.drop_last();
        assert forall|i: int| 0 <= i < t.len() implies (#[trigger] t[i]).1 is Some by {
            assert(t[i] == s[i]);
        }
        lemma_all_loaded_kept(t);
        assert(s.last() == s[s.len() - 1]);
    }
}

/// Where no base address has its entry, nothing comes out.
pub proof fn lemma_none_loaded_empty<K, E>(s: Seq<(K, Option<E>)>)
    requires
        forall|i: int| 0 <= i < s.len() ==> (#[trigger] s[i]).1 is None,
    ensures
        loaded_entries(s) == Seq::<(K, E)>::empty(),
    decreases s.len(),
{
    if s.len() > 0 {
        let t = s.drop_last();
        assert forall|i: int| 0 <= i < t.len() implies (#[trigger] t[i]).1 is None by {
            assert(t[i] == s[i]);
        }
        lemma_none_loaded_empty(t);
        assert(s.last() == s[s.len() - 1]);
    }
}

} // verus!
