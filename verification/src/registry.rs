use vstd::prelude::*;
use vstd::pervasive::VecAdditionalExecFns;
use crate::MAX_BASIS_POINTS;
use crate::arithmetic::U256;
use crate::arithmetic::compute_royalty;
use crate::error::NFTCoreError;
use crate::events::CEP78Event;
use crate::events::TokenIdentifier;
use crate::events::lemma_token_id_eq_refl;
use crate::events::token_id_eq;

verus! {

/// An economic claim on a sale: a fee in basis points and the recipient
/// it is owed to, the recipient held in its formatted string form.
/// A record is only ever created or overwritten through the access
/// gate's accepted write path, and never deleted.
#[derive(Clone, Debug, PartialEq, Eq)]
pub struct RoyaltyRecord {
    pub fee_basis_points: u16,
    pub recipient: String,
}

impl RoyaltyRecord {
    /// The record's invariant: the fee is at most one hundred percent.
    pub open spec fn wf(self) -> bool {
        self.fee_basis_points <= MAX_BASIS_POINTS
    }
}

/// The first record stored under a token naming `t`, if any.
pub open spec fn lookup_override(
    s: Seq<(TokenIdentifier, RoyaltyRecord)>,
    t: TokenIdentifier,
) -> Option<RoyaltyRecord>
    decreases s.len(),
{
    if s.len() == 0 {
        None
    } else if token_id_eq(s[0].0, t) {
        Some(s[0].1)
    } else {
        lookup_override(s.drop_first(), t)
    }
}

/// The override table after writing `r` under `t`: the first entry
/// naming `t` is replaced, or a new entry is appended if none names it.
pub open spec fn set_override(
    s: Seq<(TokenIdentifier, RoyaltyRecord)>,
    t: TokenIdentifier,
    r: RoyaltyRecord,
) -> Seq<(TokenIdentifier, RoyaltyRecord)>
    decreases s.len(),
{
    if s.len() == 0 {
        seq![(t, r)]
    } else if token_id_eq(s[0].0, t) {
        seq![(t, r)] + s.drop_first()
    } else {
        seq![s[0]] + set_override(s.drop_first(), t, r)
    }
}

/// The returned event announces a per-token royalty write of `fee` and
/// `rcp` for the token `t` names.
pub open spec fn is_set_token_royalty_event(
    e: CEP78Event,
    t: TokenIdentifier,
    fee: u16,
    rcp: Seq<char>,
) -> bool {
    match e {
        CEP78Event::SetTokenRoyalty { token_id, royalty, recipient } => token_id_eq(token_id, t)
            && royalty == fee && recipient@ == rcp,
        _ => false,
    }
}

/// Keyed royalty storage: the collection-wide default record and the
/// sparse per-token overrides, guarded by the single installer identity
/// recorded at construction.
pub struct RoyaltyRegistry {
    /// The single administrative identity, in its formatted string form,
    /// written once at construction.
    pub installer: String,
    /// The collection-wide fallback record, if it was ever set.
    pub collection_royalty: Option<RoyaltyRecord>,
    /// The sparse per-token overrides; absence means the collection
    /// default applies.
    pub token_overrides: Vec<(TokenIdentifier, RoyaltyRecord)>,
}

impl RoyaltyRegistry {
    /// The registry's invariant: every stored record is well formed.
    pub open spec fn wf(self) -> bool {
        &&& match self.collection_royalty {
            Some(r) => r.wf(),
            None => true,
        }
        &&& forall|i: int|
            0 <= i < self.token_overrides@.len() ==> (
            #[trigger] self.token_overrides@[i]).1.wf()
    }

    /// The record a royalty resolution for `t` terminates in: the
    /// override if one exists, else the collection default, else none.
    /// The override always wins over the default; there is no blend.
    pub open spec fn effective_royalty(self, t: TokenIdentifier) -> Option<RoyaltyRecord> {
        match lookup_override(self.token_overrides@, t) {
            Some(r) => Some(r),
            None => self.collection_royalty,
        }
    }

    /// A fresh registry guarded by `installer`, with nothing configured.
    pub fn new(installer: String) -> (r: RoyaltyRegistry)
        ensures
            r.wf(),
            r.installer == installer,
            r.collection_royalty is None,
            r.token_overrides@.len() == 0,
    {
        RoyaltyRegistry { installer, collection_royalty: None, token_overrides: Vec::new() }
    }

    /// The access gate: only the stored installer identity may pass.
    pub fn require_installer(&self, caller: &String) -> (res: Result<(), NFTCoreError>)
        ensures
            res == if caller@ == self.installer@ {
                Ok::<(), NFTCoreError>(())
            } else {
                Err::<(), NFTCoreError>(NFTCoreError::PermissionDenied)
            },
    {
        if caller.eq(&self.installer) {
            Ok(())
        } else {
            Err(NFTCoreError::PermissionDenied)
        }
    }

    /// The position of the first override entry naming `t`, if any.
    fn find_override(&self, t: &TokenIdentifier) -> (res: Option<usize>)
        ensures
            match res {
                Some(j) => {
                    &&& (j as int) < self.token_overrides@.len()
                    &&& token_id_eq(self.token_overrides@[j as int].0, *t)
                    &&& forall|k: int|
                        0 <= k < j ==> !token_id_eq(
                            (#[trigger] self.token_overrides@[k]).0,
                            *t,
                        )
                },
                None => forall|k: int|
                    0 <= k < self.token_overrides@.len() ==> !token_id_eq(
                        (#[trigger] self.token_overrides@[k]).0,
                        *t,
                    ),
            },
    {
        let mut i: usize = 0;
        while i < self.token_overrides.len()
            invariant
                i <= self.token_overrides@.len(),
                forall|k: int|
                    0 <= k < i ==> !token_id_eq((#[trigger] self.token_overrides@[k]).0, *t),
            decreases self.token_overrides@.len() - i,
        {
            if self.token_overrides[i].0.same_token(t) {
                return Some(i);
            }
            i = i + 1;
        }
        None
    }

    /// Overwrites the collection-wide default record. Requires gate
    /// approval; on any error the registry is left exactly as it was.
    /// On success the event to publish is returned. Re-setting by the
    /// installer is permitted: the overwrite is idempotent.
    pub fn set_collection_royalty(&mut self, caller: &String, royalty: u16, recipient: String)
        -> (res: Result<CEP78Event, NFTCoreError>)
        requires
            old(self).wf(),
            royalty <= MAX_BASIS_POINTS,
        ensures
            final(self).wf(),
            caller@ != old(self).installer@ ==> res == Err::<CEP78Event, NFTCoreError>(
                NFTCoreError::PermissionDenied,
            ) && *final(self) == *old(self),
            caller@ == old(self).installer@ ==> {
                &&& final(self).collection_royalty == Some(
                    RoyaltyRecord { fee_basis_points: royalty, recipient },
                )
                &&& final(self).token_overrides == old(self).token_overrides
                &&& final(self).installer == old(self).installer
                &&& res == Ok::<CEP78Event, NFTCoreError>(
                    CEP78Event::SetCollectionRoyalty { royalty, recipient },
                )
            },
    {
        if let Err(e) = self.require_installer(caller) {
            return Err(e);
        }
        let stored = RoyaltyRecord { fee_basis_points: royalty, recipient: recipient.clone() };
        self.collection_royalty = Some(stored);
        Ok(CEP78Event::SetCollectionRoyalty { royalty, recipient })
    }

    /// Writes or overwrites the override record for `token_id`. Requires
    /// gate approval and the token to exist; existence is delegated to
    /// the ownership and supply state, whose verdict the caller hands
    /// in as `token_exists`. On any error the registry is left exactly
    /// as it was. On success the event to publish is returned; it names
    /// the same token and carries the same fee and recipient.
    pub fn set_token_royalty(
        &mut self,
        caller: &String,
        token_id: TokenIdentifier,
        royalty: u16,
        recipient: String,
        token_exists: bool,
    ) -> (res: Result<CEP78Event, NFTCoreError>)
        requires
            old(self).wf(),
            royalty <= MAX_BASIS_POINTS,
        ensures
            final(self).wf(),
            caller@ != old(self).installer@ ==> res == Err::<CEP78Event, NFTCoreError>(
                NFTCoreError::PermissionDenied,
            ) && *final(self) == *old(self),
            caller@ == old(self).installer@ && !token_exists ==> res == Err::<
                CEP78Event,
                NFTCoreError,
            >(NFTCoreError::TokenNotFound) && *final(self) == *old(self),
            caller@ == old(self).installer@ && token_exists ==> {
                &&& final(self).token_overrides@ == set_override(
                    old(self).token_overrides@,
                    token_id,
                    RoyaltyRecord { fee_basis_points: royalty, recipient },
                )
                &&& final(self).collection_royalty == old(self).collection_royalty
                &&& final(self).installer == old(self).installer
                &&& res is Ok
                &&& is_set_token_royalty_event(res->Ok_0, token_id, royalty, recipient@)
            },
    {
        if let Err(e) = self.require_installer(caller) {
            return Err(e);
        }
        if !token_exists {
            return Err(NFTCoreError::TokenNotFound);
        }
        let stored = RoyaltyRecord { fee_basis_points: royalty, recipient: recipient.clone() };
        let event_id = token_id.duplicate();
        let ghost pre = self.token_overrides@;
        let ghost rec = RoyaltyRecord { fee_basis_points: royalty, recipient };
        match self.find_override(&token_id) {
            Some(j) => {
                self.token_overrides.set(j, (token_id, stored));
                proof {
                    lemma_set_override_replaces(pre, token_id, rec, j as int);
                    assert(self.token_overrides@ =~= pre.update(j as int, (token_id, rec)));
                }
            },
            None => {
                self.token_overrides.push((token_id, stored));
                proof {
                    lemma_set_override_appends(pre, token_id, rec);
                    assert(self.token_overrides@ =~= pre.push((token_id, rec)));
                }
            },
        }
        Ok(CEP78Event::SetTokenRoyalty { token_id: event_id, royalty, recipient })
    }

    /// Resolves the effective royalty for a token and computes the
    /// payment on `sale_price`: the override's values exactly if an
    /// override exists, else the collection default's; with neither
    /// configured the query fails. Read-only: no gate, no event.
    pub fn resolve_royalty(&self, token_id: &TokenIdentifier, sale_price: U256) -> (res: Result<
        (U256, String),
        NFTCoreError,
    >)
        requires
            self.wf(),
        ensures
            match self.effective_royalty(*token_id) {
                None => res == Err::<(U256, String), NFTCoreError>(
                    NFTCoreError::RoyaltyNotConfigured,
                ),
                Some(rec) => {
                    &&& res is Ok
                    &&& res->Ok_0.0.value() == (sale_price.value() * (
                    rec.fee_basis_points as nat)) / 10000
                    &&& res->Ok_0.0.value() <= sale_price.value()
                    &&& res->Ok_0.1 == rec.recipient
                },
            },
    {
        match self.find_override(token_id) {
            Some(j) => {
                proof {
                    lemma_lookup_first_match(self.token_overrides@, *token_id, j as int);
                }
                let fee = self.token_overrides[j].1.fee_basis_points;
                let amount = compute_royalty(fee, sale_price);
                Ok((amount, self.token_overrides[j].1.recipient.clone()))
            },
            None => {
                proof {
                    lemma_lookup_no_match(self.token_overrides@, *token_id);
                }
                match &self.collection_royalty {
                    Some(rec) => {
                        let amount = compute_royalty(rec.fee_basis_points, sale_price);
                        Ok((amount, rec.recipient.clone()))
                    },
                    None => Err(NFTCoreError::RoyaltyNotConfigured),
                }
            },
        }
    }

    /// The public royalty query entry point: pure delegation to
    /// `resolve_royalty`, as invoked locally or through a cross-contract
    /// call. Royalty information is public, so there is no gate.
    pub fn royalty_info(&self, token_id: &TokenIdentifier, sale_price: U256) -> (res: Result<
        (U256, String),
        NFTCoreError,
    >)
        requires
            self.wf(),
        ensures
            match self.effective_royalty(*token_id) {
                None => res == Err::<(U256, String), NFTCoreError>(
                    NFTCoreError::RoyaltyNotConfigured,
                ),
                Some(rec) => {
                    &&& res is Ok
                    &&& res->Ok_0.0.value() == (sale_price.value() * (
                    rec.fee_basis_points as nat)) / 10000
                    &&& res->Ok_0.0.value() <= sale_price.value()
                    &&& res->Ok_0.1 == rec.recipient
                },
            },
    {
        self.resolve_royalty(token_id, sale_price)
    }
}

/// If the first `j` entries do not name `t` and entry `j` does, the
/// lookup returns entry `j`'s record.
proof fn lemma_lookup_first_match(
    s: Seq<(TokenIdentifier, RoyaltyRecord)>,
    t: TokenIdentifier,
    j: int,
)
    requires
        0 <= j < s.len(),
        forall|k: int| 0 <= k < j ==> !token_id_eq((#[trigger] s[k]).0, t),
        token_id_eq(s[j].0, t),
    ensures
        lookup_override(s, t) == Some(s[j].1),
    decreases j,
{
    if j > 0 {
        assert(forall|k: int|
            0 <= k < j - 1 ==> !token_id_eq((#[trigger] s.drop_first()[k]).0, t));
        lemma_lookup_first_match(s.drop_first(), t, j - 1);
    }
}

/// With no entry naming `t`, the lookup returns nothing.
proof fn lemma_lookup_no_match(s: Seq<(TokenIdentifier, RoyaltyRecord)>, t: TokenIdentifier)
    requires
        forall|k: int| 0 <= k < s.len() ==> !token_id_eq((#[trigger] s[k]).0, t),
    ensures
        lookup_override(s, t) is None,
    decreases s.len(),
{
    if s.len() > 0 {
        assert(forall|k: int|
            0 <= k < s.drop_first().len() ==> !token_id_eq(
                (#[trigger] s.drop_first()[k]).0,
                t,
            ));
        lemma_lookup_no_match(s.drop_first(), t);
    }
}

/// Replacing the first entry naming `t` in place realizes
/// `set_override`.
proof fn lemma_set_override_replaces(
    s: Seq<(TokenIdentifier, RoyaltyRecord)>,
    t: TokenIdentifier,
    r: RoyaltyRecord,
    j: int,
)
    requires
        0 <= j < s.len(),
        forall|k: int| 0 <= k < j ==> !token_id_eq((#[trigger] s[k]).0, t),
        token_id_eq(s[j].0, t),
    ensures
        set_override(s, t, r) == s.update(j, (t, r)),
    decreases j,
{
    if j == 0 {
        assert(set_override(s, t, r) =~= s.update(0, (t, r)));
    } else {
        assert(forall|k: int|
            0 <= k < j - 1 ==> !token_id_eq((#[trigger] s.drop_first()[k]).0, t));
        lemma_set_override_replaces(s.drop_first(), t, r, j - 1);
        assert(set_override(s, t, r) =~= s.update(j, (t, r)));
    }
}

/// Appending an entry for a token no entry names realizes
/// `set_override`.
proof fn lemma_set_override_appends(
    s: Seq<(TokenIdentifier, RoyaltyRecord)>,
    t: TokenIdentifier,
    r: RoyaltyRecord,
)
    requires
        forall|k: int| 0 <= k < s.len() ==> !token_id_eq((#[trigger] s[k]).0, t),
    ensures
        set_override(s, t, r) == s.push((t, r)),
    decreases s.len(),
{
    if s.len() == 0 {
        assert(set_override(s, t, r) =~= s.push((t, r)));
    } else {
        assert(forall|k: int|
            0 <= k < s.drop_first().len() ==> !token_id_eq(
                (#[trigger] s.drop_first()[k]).0,
                t,
            ));
        lemma_set_override_appends(s.drop_first(), t, r);
        assert(set_override(s, t, r) =~= s.push((t, r)));
    }
}

/// After a per-token write, resolution for that token finds exactly the
/// written record: the override wins over any collection default.
pub proof fn lemma_override_precedence(
    reg: RoyaltyRegistry,
    t: TokenIdentifier,
    r: RoyaltyRecord,
)
    requires
        lookup_override(reg.token_overrides@, t) == Some(r),
    ensures
        reg.effective_royalty(t) == Some(r),
{
}

/// With no override for the token, resolution falls back to the
/// collection default.
pub proof fn lemma_collection_fallback(reg: RoyaltyRegistry, t: TokenIdentifier)
    requires
        lookup_override(reg.token_overrides@, t) is None,
    ensures
        reg.effective_royalty(t) == reg.collection_royalty,
{
}

/// Writing a record under a token makes the lookup for that token find
/// exactly that record.
pub proof fn lemma_lookup_after_set(
    s: Seq<(TokenIdentifier, RoyaltyRecord)>,
    t: TokenIdentifier,
    r: RoyaltyRecord,
)
    ensures
        lookup_override(set_override(s, t, r), t) == Some(r),
    decreases s.len(),
{
    lemma_token_id_eq_refl(t);
    if s.len() == 0 {
    } else if token_id_eq(s[0].0, t) {
        assert(set_override(s, t, r)[0] == (t, r));
    } else {
        assert(set_override(s, t, r)[0] == s[0]);
        assert(set_override(s, t, r).drop_first() =~= set_override(s.drop_first(), t, r));
        lemma_lookup_after_set(s.drop_first(), t, r);
    }
}

/// Writing the same record under the same token twice leaves the table
/// exactly as one write leaves it: the overwrite is idempotent.
pub proof fn lemma_set_override_idempotent(
    s: Seq<(TokenIdentifier, RoyaltyRecord)>,
    t: TokenIdentifier,
    r: RoyaltyRecord,
)
    ensures
        set_override(set_override(s, t, r), t, r) == set_override(s, t, r),
    decreases s.len(),
{
    lemma_token_id_eq_refl(t);
    if s.len() == 0 {
        assert(set_override(set_override(s, t, r), t, r) =~= set_override(s, t, r));
    } else if token_id_eq(s[0].0, t) {
        let w = set_override(s, t, r);
        assert(w[0] == (t, r));
        assert(set_override(w, t, r) =~= w);
    } else {
        let w = set_override(s, t, r);
        assert(w[0] == s[0]);
        assert(w.drop_first() =~= set_override(s.drop_first(), t, r));
        lemma_set_override_idempotent(s.drop_first(), t, r);
        assert(set_override(w, t, r) =~= w);
    }
}

} // verus!
