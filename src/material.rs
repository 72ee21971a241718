//! The order in which a model's material textures are requested, and how the
//! fetched textures become materials: all of them, or none.
use vstd::prelude::*;

verus! {

/// One texture to fetch: the diffuse or the normal map of material
/// `material`.
#[derive(Clone, Copy, Debug, PartialEq, Eq, Structural)]
pub struct TextureRequest {
    pub material: usize,
    pub is_normal_map: bool,
}

/// What a material loader holds, as mathematical values: the number of
/// materials, the textures fetched so far in order, and the failure that
/// ended the load, if one did.
pub ghost struct LoaderView<T, E> {
    pub count: nat,
    pub received: Seq<T>,
    pub failure: Option<E>,
}

/// Consecutive pairs of `s`: the first with the second, the third with the
/// fourth, and so on.
pub open spec fn pairs<T>(s: Seq<T>) -> Seq<(T, T)> {
    Seq::new(s.len() / 2, |i: int| (s[2 * i], s[2 * i + 1]))
}

/// Each texture as a successful fetch.
pub open spec fn fetched<T, E>(ts: Seq<T>) -> Seq<Result<T, E>> {
    ts.map_values(|t: T| Ok::<T, E>(t))
}

/// The state of a loader for `count` materials before any fetch.
pub open spec fn initial<T, E>(count: nat) -> LoaderView<T, E> {
    LoaderView { count, received: Seq::empty(), failure: None }
}

impl<T, E> LoaderView<T, E> {
    /// The loader's state is consistent.
    pub open spec fn wf(self) -> bool {
        self.received.len() <= 2 * self.count
    }

    /// The texture to fetch next, if any: for each material in order its
    /// diffuse texture and then its normal map, until a fetch fails.
    pub open spec fn next(self) -> Option<TextureRequest> {
        if self.failure.is_none() && self.received.len() < 2 * self.count {
            Some(
                TextureRequest {
                    material: (self.received.len() / 2) as usize,
                    is_normal_map: self.received.len() % 2 == 1,
                },
            )
        } else {
            None
        }
    }

    /// The state after the outcome of fetching the next texture.
    pub open spec fn after(self, outcome: Result<T, E>) -> Self {
        match outcome {
            Ok(t) => LoaderView { received: self.received.push(t), ..self },
            Err(e) => LoaderView { failure: Some(e), ..self },
        }
    }

    /// The state after handing in `outcomes` one by one, for as long as
    /// the loader requests textures.
    pub open spec fn run(self, outcomes: Seq<Result<T, E>>) -> Self
        decreases outcomes.len(),
    {
        if outcomes.len() == 0 || self.next().is_none() {
            self
        } else {
            self.after(outcomes[0]).run(outcomes.drop_first())
        }
    }

    /// Nothing is left to fetch.
    pub open spec fn finished(self) -> bool {
        self.failure.is_some() || self.received.len() == 2 * self.count
    }

    /// What the load ends with: the failure, or every material as a
    /// (diffuse, normal map) pair.
    pub open spec fn outcome(self) -> Result<Seq<(T, T)>, E> {
        match self.failure {
            Some(e) => Err(e),
            None => Ok(pairs(self.received)),
        }
    }
}

/// Builds the materials of a model from textures fetched one at a time: for
/// each material in order its diffuse texture, then its normal map. The first
/// failed fetch ends the load, and no material is handed out after it.
pub struct MaterialLoader<T, E> {
    count: usize,
    received: Vec<T>,
    failure: Option<E>,
}

impl<T, E> View for MaterialLoader<T, E> {
    type V = LoaderView<T, E>;

    closed spec fn view(&self) -> LoaderView<T, E> {
        LoaderView { count: self.count as nat, received: self.received@, failure: self.failure }
    }
}

impl<T, E> MaterialLoader<T, E> {
    /// A loader for `count` materials, with nothing fetched yet.
    pub fn new(count: usize) -> (r: Self)
        ensures
            r@ == initial::<T, E>(count as nat),
    {
        let r = MaterialLoader { count, received: Vec::new(), failure: None };
        assert(r@.received =~= Seq::<T>::empty());
        r
    }

    /// The texture to fetch next, or `None` when the load is over.
    pub fn next_request(&self) -> (r: Option<TextureRequest>)
        requires
            self@.wf(),
        ensures
            r == self@.next(),
    {
        let n = self.received.len();
        if self.failure.is_none() && n / 2 < self.count {
            Some(TextureRequest { material: n / 2, is_normal_map: n % 2 == 1 })
        } else {
            None
        }
    }

    /// Hands in the outcome of fetching the texture that `next_request` named.
    pub fn accept(&mut self, outcome: Result<T, E>)
        requires
            old(self)@.wf(),
            old(self)@.next().is_some(),
        ensures
            final(self)@ == old(self)@.after(outcome),
            final(self)@.wf(),
    {
        match outcome {
            Ok(t) => {
                self.received.push(t);
            },
            Err(e) => {
                self.failure = Some(e);
            },
        }
    }

    /// Ends the load: every material as (diffuse, normal map) in order, or
    /// the failure that stopped it.
    pub fn finish(self) -> (r: Result<Vec<(T, T)>, E>)
        requires
            self@.wf(),
            self@.finished(),
        ensures
            r matches Ok(v) ==> self@.outcome() == Ok::<Seq<(T, T)>, E>(v@),
            r matches Err(e) ==> self@.outcome() == Err::<Seq<(T, T)>, E>(e),
    {
        match self.failure {
            Some(e) => Err(e),
            None => {
                let ghost all = self.received@;
                let n = self.count;
                let mut rest = self.received;
                let mut out: Vec<(T, T)> = Vec::new();
                let mut i: usize = 0;
                while i < n
                    invariant
                        all.len() == 2 * n,
                        i <= n,
                        rest@ == all.subrange(2 * i, all.len() as int),
                        out@.len() == i,
                        forall|k: int| 0 <= k < i ==> out@[k] == (all[2 * k], all[2 * k + 1]),
                    decreases n - i,
                {
                    let diffuse = rest.remove(0);
                    let normal = rest.remove(0);
                    out.push((diffuse, normal));
                    proof {
                        assert(rest@ =~= all.subrange(2 * (i + 1), all.len() as int));
                    }
                    i = i + 1;
                }
                proof {
                    assert(out@ =~= pairs(all));
                }
                Ok(out)
            },
        }
    }
}

/// A failed fetch ends the whole load: nothing more is requested, and the
/// load ends with that failure, not with the materials built before it.
pub proof fn lemma_failure_ends_load<T, E>(s: LoaderView<T, E>, e: E)
    requires
        s.wf(),
        s.next().is_some(),
    ensures
        s.after(Err(e)).wf(),
        s.after(Err(e)).next().is_none(),
        s.after(Err(e)).finished(),
        s.after(Err(e)).outcome() == Err::<Seq<(T, T)>, E>(e),
{
}

/// Where every texture the loader asks for is fetched, the textures are
/// taken in order, one for each request.
proof fn lemma_run_fetched<T, E>(s: LoaderView<T, E>, ts: Seq<T>)
    requires
        s.wf(),
        s.failure.is_none(),
        s.received.len() + ts.len() == 2 * s.count,
    ensures
        s.run(fetched::<T, E>(ts)) == (LoaderView { received: s.received + ts, ..s }),
    decreases ts.len(),
{
    if ts.len() == 0 {
        assert(s.received + ts =~= s.received);
    } else {
        let outs = fetched::<T, E>(ts);
        assert(outs[0] == Ok::<T, E>(ts[0]));
        assert(outs.drop_first() =~= fetched::<T, E>(ts.drop_first()));
        let s2 = s.after(outs[0]);
        lemma_run_fetched(s2, ts.drop_first());
        assert(s.received.push(ts[0]) + ts.drop_first() =~= s.received + ts);
    }
}

/// A load of `count` materials whose `2 * count` fetches all succeed ends
/// with every material, in order: material `i` is the pair of the textures
/// fetched `2 * i`-th and `2 * i + 1`-th.
pub proof fn lemma_every_fetch_succeeds<T, E>(count: nat, ts: Seq<T>)
    requires
        ts.len() == 2 * count,
    ensures
        initial::<T, E>(count).run(fetched::<T, E>(ts)).finished(),
        initial::<T, E>(count).run(fetched::<T, E>(ts)).outcome() == Ok::<Seq<(T, T)>, E>(
            pairs(ts),
        ),
        pairs(ts).len() == count,
{
    lemma_run_fetched(initial::<T, E>(count), ts);
    assert(Seq::<T>::empty() + ts =~= ts);
}

/// Where fetches succeed up to the `k`-th outcome, which fails, and the
/// loader still asks for a texture at that point, the whole load ends with
/// that failure.
pub proof fn lemma_first_failure_fails_load<T, E>(
    s: LoaderView<T, E>,
    outcomes: Seq<Result<T, E>>,
    k: int,
)
    requires
        s.wf(),
        s.failure.is_none(),
        0 <= k < outcomes.len(),
        s.received.len() + k < 2 * s.count,
        outcomes[k] is Err,
        forall|j: int| 0 <= j < k ==> outcomes[j] is Ok,
    ensures
        s.run(outcomes).finished(),
        s.run(outcomes).outcome() == Err::<Seq<(T, T)>, E>(outcomes[k]->Err_0),
    decreases k,
{
    if k > 0 {
        let s2 = s.after(outcomes[0]);
        let rest = outcomes.drop_first();
        assert(rest.len() == outcomes.len() - 1);
        assert forall|j: int| 0 <= j < k - 1 implies rest[j] is Ok by {
            assert(rest[j] == outcomes[j + 1]);
        }
        lemma_first_failure_fails_load(s2, rest, k - 1);
    } else {
        let s2 = s.after(outcomes[0]);
        assert(s2.next().is_none());
        assert(s2.run(outcomes.drop_first()) == s2);
    }
}

} // verus!
