//! The chain of magnetic moments and the stencil that couples its sites.
//!
//! `MicromagneticSystem<M>` holds one magnetization of type `M` per site: a
//! number where the chain is modelled by one component, an array of three
//! where it is modelled by full vectors. Its length is fixed when it is
//! built. Nothing here computes with `M`; the type only has to be `Copy`.

use vstd::prelude::*;

verus! {

/// The two neighbours that the exchange term reads at `site`, as
/// `(left, right)`: sites `site - 1` and `site + 1`. Only interior sites
/// have them; the two ends of the chain are open.
pub open spec fn exchange_stencil<M>(magnetizations: Seq<M>, site: int) -> Option<(M, M)> {
    if 1 <= site && site + 1 < magnetizations.len() {
        Some((magnetizations[site - 1], magnetizations[site + 1]))
    } else {
        None
    }
}

/// The profile in which each of `size` sites holds `initial`.
pub open spec fn uniform_profile<M>(size: nat, initial: M) -> Seq<M> {
    Seq::new(size, |site: int| initial)
}

/// A chain of vectors that is built over `size` sites holds exactly `size`
/// magnetizations, and each of them has exactly three components.
pub proof fn lemma_one_vector_per_site<T>(size: nat, initial: [T; 3])
    ensures
        uniform_profile(size, initial).len() == size,
        forall|site: int|
            0 <= site < size ==> (#[trigger] uniform_profile(size, initial)[site])@.len() == 3,
{
}

/// The two ends of a chain take no part in the exchange coupling, and every
/// site between them reads exactly its two neighbours.
pub proof fn lemma_boundary_sites_are_exempt<M>(magnetizations: Seq<M>)
    ensures
        exchange_stencil(magnetizations, 0) is None,
        exchange_stencil(magnetizations, magnetizations.len() - 1) is None,
        forall|site: int|
            0 < site < magnetizations.len() - 1 ==> #[trigger] exchange_stencil(
                magnetizations,
                site,
            ) == Some((magnetizations[site - 1], magnetizations[site + 1])),
{
}

/// A profile was offered to a chain of another length.
#[derive(Clone, Copy, Debug, PartialEq, Eq, Structural)]
pub struct SizeMismatch {
    /// The number of sites of the chain.
    pub expected: usize,
    /// The number of entries of the profile.
    pub found: usize,
}

/// A relaxation system: the magnetization at every site of the chain.
pub struct MicromagneticSystem<M> {
    magnetizations: Vec<M>,
    size: usize,
}

impl<M> View for MicromagneticSystem<M> {
    type V = Seq<M>;

    /// The magnetizations in site order.
    closed spec fn view(&self) -> Seq<M> {
        self.magnetizations@
    }
}

impl<M> MicromagneticSystem<M> {
    #[verifier::type_invariant]
    spec fn size_is_length(self) -> bool {
        self.size == self.magnetizations@.len()
    }
}

impl<M: Copy> MicromagneticSystem<M> {
    /// A chain of `size` sites that all start at `initial`.
    pub fn new(size: usize, initial: M) -> (system: Self)
        ensures
            system@ == uniform_profile(size as nat, initial),
            system@.len() == size,
    {
        let mut magnetizations: Vec<M> = Vec::new();
        let mut site: usize = 0;
        while site < size
            invariant
                site <= size,
                magnetizations@ == uniform_profile(site as nat, initial),
            decreases size - site,
        {
            magnetizations.push(initial);
            site += 1;
        }
        MicromagneticSystem { magnetizations, size }
    }

    /// A chain with the given profile, one entry per site.
    pub fn from_magnetizations(magnetizations: Vec<M>) -> (system: Self)
        ensures
            system@ == magnetizations@,
            system@.len() == magnetizations@.len(),
    {
        let size = magnetizations.len();
        MicromagneticSystem { magnetizations, size }
    }

    /// The number of sites.
    pub fn size(&self) -> (size: usize)
        ensures
            size == self@.len(),
    {
        proof {
            use_type_invariant(self);
        }
        self.size
    }

    /// The magnetization at `site`, if the chain has such a site.
    pub fn magnetization(&self, site: usize) -> (found: Option<M>)
        ensures
            found == if site < self@.len() {
                Some(self@[site as int])
            } else {
                None::<M>
            },
    {
        if site < self.magnetizations.len() {
            Some(self.magnetizations[site])
        } else {
            None
        }
    }

    /// The neighbours that the exchange term reads at `site`; `None` at the
    /// two ends of the chain and beyond it.
    pub fn neighbors(&self, site: usize) -> (found: Option<(M, M)>)
        ensures
            found == exchange_stencil(self@, site as int),
    {
        let n = self.magnetizations.len();
        if 1 <= site && site < n && n - site > 1 {
            Some((self.magnetizations[site - 1], self.magnetizations[site + 1]))
        } else {
            None
        }
    }

    /// Evaluates `at_site` once for every site, in site order, on the chain
    /// as it stands: each call gets the site's own magnetization and the
    /// neighbours that the exchange term reads there, `None` at the two
    /// ends. Nothing is written, so every value comes from the same state.
    pub fn sweep<H, F: Fn(M, Option<(M, M)>) -> H>(&self, at_site: F) -> (values: Vec<H>)
        requires
            forall|site: int|
                0 <= site < self@.len() ==> call_requires(
                    at_site,
                    (#[trigger] self@[site], exchange_stencil(self@, site)),
                ),
        ensures
            values@.len() == self@.len(),
            forall|site: int|
                0 <= site < self@.len() ==> call_ensures(
                    at_site,
                    (self@[site], exchange_stencil(self@, site)),
                    #[trigger] values@[site],
                ),
    {
        let n = self.magnetizations.len();
        let mut values: Vec<H> = Vec::new();
        let mut site: usize = 0;
        while site < n
            invariant
                n == self@.len(),
                site <= n,
                values@.len() == site,
                forall|k: int|
                    0 <= k < self@.len() ==> call_requires(
                        at_site,
                        (#[trigger] self@[k], exchange_stencil(self@, k)),
                    ),
                forall|k: int|
                    0 <= k < site ==> call_ensures(
                        at_site,
                        (self@[k], exchange_stencil(self@, k)),
                        #[trigger] values@[k],
                    ),
            decreases n - site,
        {
            let here = self.magnetizations[site];
            let around = self.neighbors(site);
            let value = at_site(here, around);
            values.push(value);
            site += 1;
        }
        values
    }

    /// Puts `next` in place of all magnetizations at once, so that a step can
    /// read the whole chain as it was before it writes any site. A profile
    /// of another length is refused and the chain stays as it is: its size
    /// never changes.
    pub fn replace_magnetizations(&mut self, next: Vec<M>) -> (outcome: Result<(), SizeMismatch>)
        ensures
            next@.len() == old(self)@.len() ==> outcome == Ok::<(), SizeMismatch>(())
                && final(self)@ == next@,
            next@.len() != old(self)@.len() ==> outcome == Err::<(), SizeMismatch>(
                (SizeMismatch { expected: old(self)@.len() as usize, found: next@.len() as usize }),
            ) && final(self)@ == old(self)@,
            final(self)@.len() == old(self)@.len(),
    {
        proof {
            use_type_invariant(&*self);
        }
        let found = next.len();
        if found == self.size {
            self.magnetizations = next;
            Ok(())
        } else {
            Err(SizeMismatch { expected: self.size, found })
        }
    }

    /// A copy of the magnetizations in site order, one per site.
    pub fn get_magnetizations(&self) -> (snapshot: Vec<M>)
        ensures
            snapshot@ == self@,
            snapshot@.len() == self@.len(),
    {
        let n = self.magnetizations.len();
        let mut snapshot: Vec<M> = Vec::new();
        let mut site: usize = 0;
        while site < n
            invariant
                n == self.magnetizations@.len(),
                site <= n,
                snapshot@ == self.magnetizations@.take(site as int),
            decreases n - site,
        {
            snapshot.push(self.magnetizations[site]);
            site += 1;
        }
        snapshot
    }
}

} // verus!
