use vstd::prelude::*;

use crate::errors::ClawdVaultError;
use crate::state::{create_token, initial_curve, BondingCurve};

verus! {

/// The keyed store of curves: one `BondingCurve` record per asset identity,
/// created exactly once per asset. Access must be serialized per curve by the
/// surrounding settlement layer; the store itself only guards creation.
pub struct CurveRegistry {
    curves: Vec<BondingCurve>,
}

impl View for CurveRegistry {
    type V = Seq<BondingCurve>;

    closed spec fn view(&self) -> Seq<BondingCurve> {
        self.curves@
    }
}

impl CurveRegistry {
    /// Whether some stored curve prices the asset `mint`.
    pub open spec fn spec_contains(self, mint: u64) -> bool {
        exists|i: int| 0 <= i < self@.len() && self@[i].mint == mint
    }

    /// An empty store: no asset has a curve yet.
    pub fn new() -> (registry: CurveRegistry)
        ensures
            registry@ =~= Seq::<BondingCurve>::empty(),
    {
        CurveRegistry { curves: Vec::new() }
    }

    /// Whether the asset `mint` already has a curve.
    pub fn contains(&self, mint: u64) -> (found: bool)
        ensures
            found == self.spec_contains(mint),
    {
        let mut i: usize = 0;
        while i < self.curves.len()
            invariant
                0 <= i <= self.curves.len(),
                forall|j: int| 0 <= j < i ==> self@[j].mint != mint,
            decreases self.curves.len() - i,
        {
            if self.curves[i].mint == mint {
                assert(self@[i as int].mint == mint);
                return true;
            }
            i = i + 1;
        }
        false
    }

    /// Create the curve for a new asset. Creating twice for the same asset is
    /// an error, not a no-op: a duplicate leaves the store untouched, and
    /// otherwise exactly the fresh curve is appended.
    pub fn create(&mut self, creator: u64, mint: u64) -> (r: Result<(), ClawdVaultError>)
        ensures
            old(self).spec_contains(mint) ==> r == Err::<(), ClawdVaultError>(
                ClawdVaultError::DuplicateCurve,
            ) && final(self)@ == old(self)@,
            !old(self).spec_contains(mint) ==> r == Ok::<(), ClawdVaultError>(()) && final(self)@
                == old(self)@.push(initial_curve(creator, mint)),
    {
        if self.contains(mint) {
            return Err(ClawdVaultError::DuplicateCurve);
        }
        let curve = create_token(creator, mint);
        self.curves.push(curve);
        Ok(())
    }

    /// Look up the curve for an asset, if one was created; the returned copy
    /// is one of the stored records and prices exactly that asset.
    pub fn get(&self, mint: u64) -> (r: Option<BondingCurve>)
        ensures
            r is Some <==> self.spec_contains(mint),
            (r matches Some(curve) ==> curve.mint == mint && (exists|i: int|
                0 <= i < self@.len() && self@[i] == curve)),
    {
        let mut i: usize = 0;
        while i < self.curves.len()
            invariant
                0 <= i <= self.curves.len(),
                forall|j: int| 0 <= j < i ==> self@[j].mint != mint,
            decreases self.curves.len() - i,
        {
            if self.curves[i].mint == mint {
                assert(self@[i as int].mint == mint);
                return Some(self.curves[i]);
            }
            i = i + 1;
        }
        None
    }

    /// How many curves have been created.
    pub fn len(&self) -> (n: usize)
        ensures
            n == self@.len(),
    {
        self.curves.len()
    }
}

} // verus!
