//! The registry of peers: one stream per address, the choice of targets for a
//! broadcast, and how per-target outcomes are gathered into one result.
use vstd::prelude::*;

use crate::error::NetError;

verus! {

/// Whether `address` is among the targets that `filter` names; no filter names
/// every address.
pub open spec fn selects(filter: Option<Seq<Seq<char>>>, address: Seq<char>) -> bool {
    match filter {
        None => true,
        Some(f) => f.contains(address),
    }
}

/// The views of a list of addresses.
pub open spec fn addresses_view(v: Seq<String>) -> Seq<Seq<char>> {
    v.map_values(|a: String| a@)
}

/// The view of an optional list of addresses.
pub open spec fn filter_view(filter: Option<Vec<String>>) -> Option<Seq<Seq<char>>> {
    match filter {
        None => None,
        Some(f) => Some(addresses_view(f@)),
    }
}

/// The errors among `results`, in order.
pub open spec fn errors_of(results: Seq<Result<(), NetError>>) -> Seq<NetError>
    decreases results.len(),
{
    if results.len() == 0 {
        Seq::empty()
    } else {
        let earlier = errors_of(results.drop_last());
        match results.last() {
            Ok(_) => earlier,
            Err(e) => earlier.push(e),
        }
    }
}

/// What a broadcast reports: success when every target succeeded, else every
/// target's error, in order.
pub open spec fn gathered(results: Seq<Result<(), NetError>>) -> Result<(), Seq<NetError>> {
    if errors_of(results).len() == 0 {
        Ok(())
    } else {
        Err(errors_of(results))
    }
}

/// No error is dropped and none is added: each failed target gives one error.
pub proof fn lemma_errors_of(results: Seq<Result<(), NetError>>)
    ensures
        errors_of(results).len() == 0 <==> forall|i: int| 0 <= i < results.len() ==> #[trigger] results[i] is Ok,
        errors_of(results).len() <= results.len(),
    decreases results.len(),
{
    if results.len() > 0 {
        lemma_errors_of(results.drop_last());
        if errors_of(results).len() == 0 {
            assert forall|i: int| 0 <= i < results.len() implies #[trigger] results[i] is Ok by {
                if i < results.len() - 1 {
                    assert(results.drop_last()[i] == results[i]);
                }
            }
        }
    }
}

/// Partial failure: when the targets that are closed fail with `StreamNotAlive` and
/// the others succeed, the broadcast reports exactly one `StreamNotAlive` per closed
/// target and nothing else; it fails only if some target is closed.
pub proof fn lemma_partial_failure(alive: Seq<bool>, results: Seq<Result<(), NetError>>)
    requires
        alive.len() == results.len(),
        forall|i: int| 0 <= i < results.len() ==> (#[trigger] alive[i] ==> results[i] is Ok),
        forall|i: int| 0 <= i < results.len() ==> (!#[trigger] alive[i] ==> results[i] matches Err(NetError::StreamNotAlive)),
    ensures
        errors_of(results).len() == alive.filter(|a: bool| !a).len(),
        forall|j: int| 0 <= j < errors_of(results).len() ==> #[trigger] errors_of(results)[j] is StreamNotAlive,
        gathered(results) is Ok <==> forall|i: int| 0 <= i < alive.len() ==> #[trigger] alive[i],
    decreases results.len(),
{
    lemma_errors_of(results);
    if results.len() > 0 {
        let a = alive.drop_last();
        let r = results.drop_last();
        assert forall|i: int| 0 <= i < r.len() && #[trigger] a[i] implies r[i] is Ok by {
            assert(a[i] == alive[i] && r[i] == results[i]);
        }
        assert forall|i: int| 0 <= i < r.len() && !#[trigger] a[i] implies r[i] matches Err(NetError::StreamNotAlive) by {
            assert(a[i] == alive[i] && r[i] == results[i]);
        }
        lemma_partial_failure(a, r);
        assert(alive =~= a.push(alive.last()));
        a.lemma_filter_push(alive.last(), |x: bool| !x);
        assert(results.last() == results[results.len() - 1]);
    } else {
        assert(alive.filter(|a: bool| !a) =~= Seq::<bool>::empty()) by {
            alive.lemma_filter_len(|a: bool| !a);
        }
    }
    assert(gathered(results) is Ok <==> errors_of(results).len() == 0);
    if errors_of(results).len() == 0 {
        assert forall|i: int| 0 <= i < alive.len() implies #[trigger] alive[i] by {
            assert(results[i] is Ok);
        }
    }
}

/// Gathers the outcomes of a broadcast: `Ok` when every target succeeded, else the
/// list of every failure, so that one unreachable peer never hides the others.
pub fn collect_errors(results: Vec<Result<(), NetError>>) -> (r: Result<(), Vec<NetError>>)
    ensures
        match r {
            Ok(()) => gathered(results@) is Ok,
            Err(errors) => gathered(results@) == Err::<(), Seq<NetError>>(errors@),
        },
{
    let mut errors: Vec<NetError> = Vec::new();
    let mut results = results;
    let ghost all = results@;
    let ghost mut i: int = 0;
    while results.len() > 0
        invariant
            0 <= i <= all.len(),
            results@ == all.subrange(i, all.len() as int),
            errors@ == errors_of(all.subrange(0, i)),
        decreases results.len(),
    {
        let item = results.remove(0);
        proof {
            assert(all[i] == item);
            assert(all.subrange(0, i + 1).drop_last() =~= all.subrange(0, i));
            assert(all.subrange(0, i + 1).last() == all[i]);
            assert(results@ =~= all.subrange(i + 1, all.len() as int));
        }
        match item {
            Ok(()) => {},
            Err(e) => errors.push(e),
        }
        proof {
            i = i + 1;
        }
    }
    assert(all.subrange(0, i) =~= all);
    if errors.len() == 0 {
        Ok(())
    } else {
        Err(errors)
    }
}

/// Whether `address` is among `filter`'s addresses; no filter names every address.
pub fn is_selected(filter: &Option<Vec<String>>, address: &String) -> (r: bool)
    ensures
        r == selects(filter_view(*filter), address@),
{
    match filter {
        None => true,
        Some(f) => {
            let ghost fv = addresses_view(f@);
            let mut i: usize = 0;
            while i < f.len()
                invariant
                    i <= f@.len(),
                    fv == addresses_view(f@),
                    fv.len() == f@.len(),
                    filter_view(*filter) == Some(fv),
                    forall|j: int| 0 <= j < i ==> fv[j] != address@,
                decreases f@.len() - i,
            {
                if f[i] == *address {
                    assert(fv[i as int] == f@[i as int]@);
                    assert(fv[i as int] == address@);
                    assert(fv.contains(address@));
                    return true;
                }
                i = i + 1;
            }
            proof {
                if fv.contains(address@) {
                    let j = choose|j: int| 0 <= j < fv.len() && fv[j] == address@;
                    assert(fv[j] != address@);
                }
            }
            false
        },
    }
}

/// The registered streams, one per address. Registering a second stream for an
/// address retires the first.
pub struct ConnectionRegistry<T> {
    addresses: Vec<String>,
    streams: Vec<T>,
}

impl<T> ConnectionRegistry<T> {
    /// The registered addresses, in order of registration.
    pub closed spec fn addresses(&self) -> Seq<Seq<char>> {
        addresses_view(self.addresses@)
    }

    /// The registered streams, in the order of their addresses.
    pub closed spec fn streams(&self) -> Seq<T> {
        self.streams@
    }

    /// One stream per address, and no address twice.
    pub closed spec fn wf(&self) -> bool {
        &&& self.addresses@.len() == self.streams@.len()
        &&& forall|i: int, j: int|
            0 <= i < j < self.addresses@.len() ==> #[trigger] self.addresses@[i]@ != #[trigger] self.addresses@[j]@
    }

    pub proof fn lemma_wf(&self)
        requires
            self.wf(),
        ensures
            self.addresses().len() == self.streams().len(),
            forall|i: int, j: int|
                0 <= i < j < self.addresses().len() ==> #[trigger] self.addresses()[i] != #[trigger] self.addresses()[j],
    {
    }

    /// An empty registry.
    pub fn new() -> (r: Self)
        ensures
            r.wf(),
            r.addresses() == Seq::<Seq<char>>::empty(),
            r.streams() == Seq::<T>::empty(),
    {
        let r = ConnectionRegistry { addresses: Vec::new(), streams: Vec::new() };
        assert(r.addresses() =~= Seq::<Seq<char>>::empty());
        r
    }

    pub fn len(&self) -> (r: usize)
        requires
            self.wf(),
        ensures
            r == self.addresses().len(),
    {
        self.addresses.len()
    }

    /// The position of `address`, if it is registered.
    pub fn position(&self, address: &String) -> (r: Option<usize>)
        requires
            self.wf(),
        ensures
            match r {
                Some(i) => i < self.addresses().len() && self.addresses()[i as int] == address@,
                None => !self.addresses().contains(address@),
            },
    {
        let mut i: usize = 0;
        while i < self.addresses.len()
            invariant
                i <= self.addresses@.len(),
                forall|j: int| 0 <= j < i ==> self.addresses()[j] != address@,
            decreases self.addresses@.len() - i,
        {
            if self.addresses[i] == *address {
                return Some(i);
            }
            i = i + 1;
        }
        proof {
            if self.addresses().contains(address@) {
                let j = choose|j: int| 0 <= j < self.addresses().len() && self.addresses()[j] == address@;
                assert(self.addresses()[j] != address@);
            }
        }
        None
    }

    /// Registers `stream` under `address`. A stream already registered there is
    /// replaced in place and handed back, so that the caller can retire it.
    pub fn insert(&mut self, address: String, stream: T) -> (r: Option<T>)
        requires
            old(self).wf(),
        ensures
            final(self).wf(),
            match r {
                Some(retired) => exists|i: int|
                    0 <= i < old(self).addresses().len() && old(self).addresses()[i] == address@ && retired
                        == old(self).streams()[i] && final(self).addresses() == old(self).addresses()
                        && final(self).streams() == old(self).streams().update(i, stream),
                None => {
                    &&& !old(self).addresses().contains(address@)
                    &&& final(self).addresses() == old(self).addresses().push(address@)
                    &&& final(self).streams() == old(self).streams().push(stream)
                },
            },
    {
        match self.position(&address) {
            Some(i) => {
                let ghost old_streams = self.streams@;
                let mut stream = stream;
                std::mem::swap(&mut self.streams[i], &mut stream);
                assert(self.streams@ =~= old_streams.update(i as int, self.streams@[i as int]));
                Some(stream)
            },
            None => {
                let ghost old_addresses = self.addresses@;
                self.addresses.push(address);
                self.streams.push(stream);
                proof {
                    assert(self.addresses() =~= old(self).addresses().push(address@));
                    assert forall|i: int, j: int|
                        0 <= i < j < self.addresses@.len() implies #[trigger] self.addresses@[i]@
                        != #[trigger] self.addresses@[j]@ by {
                        if j == self.addresses@.len() - 1 {
                            assert(old(self).addresses()[i] == self.addresses@[i]@);
                        }
                    }
                }
                None
            },
        }
    }

    /// The address at position `i`.
    pub fn address(&self, i: usize) -> (r: &String)
        requires
            self.wf(),
            i < self.addresses().len(),
        ensures
            r@ == self.addresses()[i as int],
    {
        &self.addresses[i]
    }

    /// The stream at position `i`.
    pub fn stream(&self, i: usize) -> (r: &T)
        requires
            self.wf(),
            i < self.addresses().len(),
        ensures
            *r == self.streams()[i as int],
    {
        &self.streams[i]
    }

    /// The positions of the streams that `filter` selects, in order; no filter
    /// selects every stream.
    pub fn targets(&self, filter: &Option<Vec<String>>) -> (r: Vec<usize>)
        requires
            self.wf(),
        ensures
            forall|j: int| 0 <= j < r@.len() ==> #[trigger] r@[j] < self.addresses().len()
                && selects(filter_view(*filter), self.addresses()[r@[j] as int]),
            forall|j: int, k: int| 0 <= j < k < r@.len() ==> #[trigger] r@[j] < #[trigger] r@[k],
            forall|i: int|
                0 <= i < self.addresses().len() && selects(filter_view(*filter), #[trigger] self.addresses()[i])
                    ==> r@.contains(i as usize),
    {
        let mut out: Vec<usize> = Vec::new();
        let mut i: usize = 0;
        while i < self.addresses.len()
            invariant
                self.wf(),
                i <= self.addresses@.len(),
                forall|j: int| 0 <= j < out@.len() ==> #[trigger] out@[j] < i
                    && selects(filter_view(*filter), self.addresses()[out@[j] as int]),
                forall|j: int, k: int| 0 <= j < k < out@.len() ==> #[trigger] out@[j] < #[trigger] out@[k],
                forall|m: int|
                    0 <= m < i && selects(filter_view(*filter), #[trigger] self.addresses()[m]) ==> out@.contains(m as usize),
            decreases self.addresses@.len() - i,
        {
            let ghost before = out@;
            if is_selected(filter, &self.addresses[i]) {
                out.push(i);
                proof {
                    assert forall|m: int|
                        0 <= m < i + 1 && selects(filter_view(*filter), #[trigger] self.addresses()[m]) implies out@.contains(m as usize) by {
                        if m < i {
                            let w = choose|w: int| 0 <= w < before.len() && before[w] == m as usize;
                            assert(out@[w] == m as usize);
                        } else {
                            assert(out@[out@.len() - 1] == i);
                        }
                    }
                }
            } else {
                proof {
                    assert(!selects(filter_view(*filter), self.addresses()[i as int]));
                }
            }
            i = i + 1;
        }
        out
    }

    /// A copy of the registered addresses.
    pub fn snapshot(&self) -> (r: Vec<String>)
        requires
            self.wf(),
        ensures
            r@.len() == self.addresses().len(),
            forall|k: int| 0 <= k < r@.len() ==> #[trigger] r@[k]@ == self.addresses()[k],
    {
        let mut out: Vec<String> = Vec::new();
        let mut i: usize = 0;
        while i < self.addresses.len()
            invariant
                i <= self.addresses@.len(),
                out@.len() == i,
                forall|k: int| 0 <= k < i ==> #[trigger] out@[k]@ == self.addresses()[k],
            decreases self.addresses@.len() - i,
        {
            out.push(self.addresses[i].clone());
            i = i + 1;
        }
        out
    }

    /// Empties the registry and hands back every stream, in order, so that each can
    /// be closed.
    pub fn clear(&mut self) -> (r: Vec<T>)
        requires
            old(self).wf(),
        ensures
            final(self).wf(),
            final(self).addresses() == Seq::<Seq<char>>::empty(),
            final(self).streams() == Seq::<T>::empty(),
            r@ == old(self).streams(),
    {
        let mut streams: Vec<T> = Vec::new();
        std::mem::swap(&mut self.streams, &mut streams);
        self.addresses = Vec::new();
        assert(self.addresses() =~= Seq::<Seq<char>>::empty());
        assert(self.streams@ =~= Seq::<T>::empty());
        streams
    }
}

/// Idempotent close of the manager: once the registry has been emptied, it holds no
/// stream, so a second clear hands back nothing to close and no `Close` record follows.
pub proof fn lemma_clear_idempotent<T>(registry: ConnectionRegistry<T>)
    requires
        registry.wf(),
        registry.addresses() == Seq::<Seq<char>>::empty(),
    ensures
        registry.streams() == Seq::<T>::empty(),
{
    registry.lemma_wf();
    assert(registry.streams() =~= Seq::<T>::empty());
}

} // verus!
