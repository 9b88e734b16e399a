//! The whole registry as one value: configuration, verifier directory,
//! treasury balance and the live prefix records, each operation applied to it
//! as a single all-or-nothing step.
use vstd::prelude::*;

use crate::admin::{
    add_verifier_check, add_verifier_handler, admin_check, initialize_handler, remove_verifier_check,
    remove_verifier_handler, set_pause_handler, update_fee_handler, withdraw_check, withdraw_treasury_handler,
};
use crate::constants::MAX_EXPIRY_DURATION;
use crate::errors::ErrorCode;
use crate::lifecycle::{
    admin_transition_check, approve_check, approve_prefix_handler, approved, authority_updated,
    deactivate_prefix_handler, is_new_record, metadata_updated, owner_recovered,
    reactivate_prefix_handler, recover_check, recover_prefix_owner_with_fee_handler, refund_check,
    refund_prefix_fee_handler, reject_check, reject_prefix_handler, rejected, submit_check,
    submit_prefix_with_fee_handler, update_authority_check, update_metadata_check,
    update_prefix_authority_handler, update_prefix_metadata_handler, with_status,
};
use crate::state::{FeeRegistry, Instruction, PrefixAccount, PrefixStatus, Pubkey, VerifiersList};
use crate::utils::is_normalized_prefix;

verus! {

/// No two records share a prefix.
pub open spec fn unique_prefixes(records: Seq<PrefixAccount>) -> bool {
    forall|i: int, j: int|
        0 <= i < records.len() && 0 <= j < records.len() && i != j ==> #[trigger] records[i].prefix@
            != #[trigger] records[j].prefix@
}

/// The index of the record for prefix `p`, if there is one.
pub open spec fn lookup(records: Seq<PrefixAccount>, p: Seq<char>) -> Option<int> {
    if exists|i: int| 0 <= i < records.len() && #[trigger] records[i].prefix@ == p {
        Some(choose|i: int| 0 <= i < records.len() && #[trigger] records[i].prefix@ == p)
    } else {
        None
    }
}

proof fn lemma_lookup_unique(records: Seq<PrefixAccount>, p: Seq<char>, i: int)
    requires
        unique_prefixes(records),
        0 <= i < records.len(),
        records[i].prefix@ == p,
    ensures
        lookup(records, p) == Some(i),
{
    let j = choose|j: int| 0 <= j < records.len() && #[trigger] records[j].prefix@ == p;
    assert(records[j].prefix@ == records[i].prefix@);
}

proof fn lemma_update_keeps_unique(records: Seq<PrefixAccount>, i: int, rec: PrefixAccount)
    requires
        unique_prefixes(records),
        0 <= i < records.len(),
        rec.prefix@ == records[i].prefix@,
    ensures
        unique_prefixes(records.update(i, rec)),
{
    let new = records.update(i, rec);
    assert forall|a: int, b: int| 0 <= a < new.len() && 0 <= b < new.len() && a != b implies #[trigger] new[a].prefix@
        != #[trigger] new[b].prefix@ by {
        assert(new[a].prefix@ == records[a].prefix@);
        assert(new[b].prefix@ == records[b].prefix@);
    }
}

proof fn lemma_remove_keeps_unique(records: Seq<PrefixAccount>, i: int)
    requires
        unique_prefixes(records),
        0 <= i < records.len(),
    ensures
        unique_prefixes(records.remove(i)),
        lookup(records.remove(i), records[i].prefix@) is None,
{
    let new = records.remove(i);
    assert forall|a: int, b: int| 0 <= a < new.len() && 0 <= b < new.len() && a != b implies #[trigger] new[a].prefix@
        != #[trigger] new[b].prefix@ by {
        let a0 = if a < i { a } else { a + 1 };
        let b0 = if b < i { b } else { b + 1 };
        assert(new[a] == records[a0]);
        assert(new[b] == records[b0]);
    }
    if exists|k: int| 0 <= k < new.len() && #[trigger] new[k].prefix@ == records[i].prefix@ {
        let k = choose|k: int| 0 <= k < new.len() && #[trigger] new[k].prefix@ == records[i].prefix@;
        let k0 = if k < i { k } else { k + 1 };
        assert(new[k] == records[k0]);
    }
}

/// Sum of the fees paid for the records in `records`.
pub open spec fn fees_held(records: Seq<PrefixAccount>) -> int
    decreases records.len(),
{
    if records.len() == 0 {
        0
    } else {
        fees_held(records.drop_last()) + records.last().fee_paid
    }
}

proof fn lemma_fees_push(records: Seq<PrefixAccount>, rec: PrefixAccount)
    ensures
        fees_held(records.push(rec)) == fees_held(records) + rec.fee_paid,
{
    assert(records.push(rec).drop_last() =~= records);
}

proof fn lemma_fees_update(records: Seq<PrefixAccount>, i: int, rec: PrefixAccount)
    requires
        0 <= i < records.len(),
        rec.fee_paid == records[i].fee_paid,
    ensures
        fees_held(records.update(i, rec)) == fees_held(records),
    decreases records.len(),
{
    let new = records.update(i, rec);
    if i < records.len() - 1 {
        assert(new.drop_last() =~= records.drop_last().update(i, rec));
        lemma_fees_update(records.drop_last(), i, rec);
    } else {
        assert(new.drop_last() =~= records.drop_last());
    }
}

proof fn lemma_fees_remove(records: Seq<PrefixAccount>, i: int)
    requires
        0 <= i < records.len(),
    ensures
        fees_held(records.remove(i)) == fees_held(records) - records[i].fee_paid,
    decreases records.len(),
{
    let new = records.remove(i);
    if i < records.len() - 1 {
        assert(new.drop_last() =~= records.drop_last().remove(i));
        assert(new.last() == records.last());
        lemma_fees_remove(records.drop_last(), i);
    } else {
        assert(new =~= records.drop_last());
    }
}

/// The registry's state: one configuration, one verifier directory, the
/// treasury's balance and one record per live prefix. Every operation but the
/// admin's withdrawal keeps the treasury at or above the fees held for the
/// live records.
#[derive(Debug)]
pub struct Registry {
    pub fee_registry: FeeRegistry,
    pub verifiers: VerifiersList,
    pub treasury: u64,
    pub prefixes: Vec<PrefixAccount>,
}

impl Registry {
    /// The directory is well formed, shares the configuration's admin, and no
    /// prefix has two records.
    pub open spec fn wf(&self) -> bool {
        &&& self.verifiers.wf()
        &&& self.verifiers.admin == self.fee_registry.admin
        &&& unique_prefixes(self.prefixes@)
    }

    /// The treasury holds at least the fees paid for all live records.
    pub open spec fn escrow_covers(&self) -> bool {
        self.treasury >= fees_held(self.prefixes@)
    }

    /// `other` has the same configuration, directory and treasury.
    pub open spec fn same_config(&self, other: &Registry) -> bool {
        &&& self.fee_registry == other.fee_registry
        &&& self.verifiers == other.verifiers
        &&& self.treasury == other.treasury
    }

    /// The outcome of a submission: a prefix that already has a record is
    /// refused before anything else is looked at.
    pub open spec fn submit_outcome(
        &self,
        owner: Pubkey,
        owner_lamports: u64,
        prefix: Seq<char>,
        metadata_uri: Seq<char>,
        metadata_hash: Seq<u8>,
        n_keys: nat,
        batch: Seq<Instruction>,
    ) -> Result<(), ErrorCode> {
        if lookup(self.prefixes@, prefix) is Some {
            Err(ErrorCode::PrefixAlreadyExists)
        } else {
            submit_check(self.fee_registry, owner, owner_lamports, prefix, metadata_uri, metadata_hash, n_keys, batch)
        }
    }

    /// Sets up a running registry with an empty directory, an empty treasury
    /// and no records.
    pub fn initialize(admin_pubkey: Pubkey, initial_fee: u64, now: i64) -> (r: Registry)
        ensures
            r.wf(),
            r.fee_registry == (FeeRegistry {
                admin: admin_pubkey,
                current_fee: initial_fee,
                pause: false,
                bump: 0,
                created_at: now,
                updated_at: now,
            }),
            r.verifiers.admin == admin_pubkey,
            r.verifiers.verifiers@.len() == 0,
            r.verifiers.created_at == now,
            r.treasury == 0,
            r.prefixes@.len() == 0,
            r.escrow_covers(),
    {
        let (fee_registry, verifiers) = initialize_handler(admin_pubkey, initial_fee, 0, 0, now);
        let r = Registry { fee_registry, verifiers, treasury: 0, prefixes: Vec::new() };
        assert(fees_held(r.prefixes@) == 0);
        r
    }

    /// Index of the record for `prefix`.
    pub fn find(&self, prefix: &String) -> (r: Option<usize>)
        requires
            self.wf(),
        ensures
            match r {
                Some(i) => lookup(self.prefixes@, prefix@) == Some(i as int),
                None => lookup(self.prefixes@, prefix@) is None,
            },
    {
        let mut i: usize = 0;
        while i < self.prefixes.len()
            invariant
                unique_prefixes(self.prefixes@),
                0 <= i <= self.prefixes@.len(),
                forall|j: int| 0 <= j < i ==> #[trigger] self.prefixes@[j].prefix@ != prefix@,
            decreases self.prefixes@.len() - i,
        {
            if self.prefixes[i].prefix == *prefix {
                proof {
                    lemma_lookup_unique(self.prefixes@, prefix@, i as int);
                }
                return Some(i);
            }
            i = i + 1;
        }
        None
    }

    /// The record for `prefix`, if it is live.
    pub fn get(&self, prefix: &String) -> (r: Option<&PrefixAccount>)
        requires
            self.wf(),
        ensures
            match lookup(self.prefixes@, prefix@) {
                Some(i) => r == Some(&self.prefixes@[i]),
                None => r is None,
            },
    {
        match self.find(prefix) {
            Some(i) => Some(&self.prefixes[i]),
            None => None,
        }
    }

    /// Submits a new prefix; on success exactly one record holds it, Pending,
    /// and the treasury has gained the fee in effect.
    pub fn submit_prefix_with_fee(
        &mut self,
        owner: Pubkey,
        owner_lamports: &mut u64,
        prefix: String,
        metadata_uri: String,
        metadata_hash: [u8; 32],
        authority_keys: Vec<Pubkey>,
        instructions: &Vec<Instruction>,
        now: i64,
    ) -> (r: Result<(), ErrorCode>)
        requires
            old(self).wf(),
            *old(owner_lamports) + old(self).treasury <= u64::MAX,
            now <= i64::MAX - MAX_EXPIRY_DURATION,
        ensures
            final(self).wf(),
            old(self).escrow_covers() ==> final(self).escrow_covers(),
            r == old(self).submit_outcome(owner, *old(owner_lamports), prefix@, metadata_uri@,
                metadata_hash@, authority_keys@.len(), instructions@),
            r is Ok ==> {
                let fee = old(self).fee_registry.current_fee;
                let n = old(self).prefixes@.len();
                &&& final(self).prefixes@.len() == n + 1
                &&& final(self).prefixes@.subrange(0, n as int) == old(self).prefixes@
                &&& is_new_record(final(self).prefixes@[n as int], owner, prefix@, metadata_uri@,
                    metadata_hash@, authority_keys@, fee, 0, now)
                &&& lookup(final(self).prefixes@, prefix@) == Some(n as int)
                &&& forall|i: int| 0 <= i < final(self).prefixes@.len()
                    && #[trigger] final(self).prefixes@[i].prefix@ == prefix@ ==> i == n
                &&& final(self).prefixes@[n as int].status == PrefixStatus::Pending
                &&& final(self).prefixes@[n as int].expiry_at == now + MAX_EXPIRY_DURATION
                &&& final(self).treasury == old(self).treasury + fee
                &&& *final(owner_lamports) == *old(owner_lamports) - fee
                &&& final(self).fee_registry == old(self).fee_registry
                &&& final(self).verifiers == old(self).verifiers
            },
            r is Err ==> *final(self) == *old(self) && *final(owner_lamports) == *old(owner_lamports),
    {
        match self.find(&prefix) {
            Some(_) => {
                return Err(ErrorCode::PrefixAlreadyExists);
            },
            None => {},
        }
        let ghost p = prefix@;
        let ghost old_records = self.prefixes@;
        let rec = match submit_prefix_with_fee_handler(
            &self.fee_registry,
            &owner,
            owner_lamports,
            &mut self.treasury,
            prefix,
            metadata_uri,
            metadata_hash,
            authority_keys,
            instructions,
            0,
            now,
        ) {
            Ok(rec) => rec,
            Err(e) => {
                return Err(e);
            },
        };
        self.prefixes.push(rec);
        proof {
            let n = old_records.len();
            assert(is_normalized_prefix(p));
            assert(self.prefixes@.subrange(0, n as int) =~= old_records);
            assert forall|i: int| 0 <= i < self.prefixes@.len() && #[trigger] self.prefixes@[i].prefix@ == p
                implies i == n by {
                if i < n {
                    assert(old_records[i].prefix@ == p);
                }
            }
            assert forall|i: int, j: int|
                0 <= i < self.prefixes@.len() && 0 <= j < self.prefixes@.len() && i != j
                implies #[trigger] self.prefixes@[i].prefix@ != #[trigger] self.prefixes@[j].prefix@ by {
                if i < n && j < n {
                    assert(old_records[i].prefix@ != old_records[j].prefix@);
                } else if i < n {
                    assert(old_records[i].prefix@ == self.prefixes@[i].prefix@);
                } else if j < n {
                    assert(old_records[j].prefix@ == self.prefixes@[j].prefix@);
                }
            }
            lemma_lookup_unique(self.prefixes@, p, n as int);
            assert(self.prefixes@ =~= old_records.push(self.prefixes@[n as int]));
            lemma_fees_push(old_records, self.prefixes@[n as int]);
        }
        Ok(())
    }
    /// A verifier approves the Pending record for `prefix`. A prefix with no
    /// live record has no status to leave: `InvalidPrefixStatus`.
    pub fn approve_prefix(&mut self, verifier: Pubkey, prefix: &String, ref_hash: [u8; 32], now: i64) -> (r: Result<
        (),
        ErrorCode,
    >)
        requires
            old(self).wf(),
        ensures
            final(self).wf(),
            old(self).escrow_covers() ==> final(self).escrow_covers(),
            final(self).same_config(old(self)),
            match lookup(old(self).prefixes@, prefix@) {
                None => r == Err::<(), ErrorCode>(ErrorCode::InvalidPrefixStatus) && final(self).prefixes@
                    == old(self).prefixes@,
                Some(i) => {
                    &&& r == approve_check(old(self).fee_registry, old(self).verifiers, verifier,
                        old(self).prefixes@[i], now)
                    &&& final(self).prefixes@ == if r is Ok {
                        old(self).prefixes@.update(i, approved(old(self).prefixes@[i], ref_hash, now))
                    } else {
                        old(self).prefixes@
                    }
                },
            },
    {
        let i = match self.find(prefix) {
            Some(i) => i,
            None => {
                return Err(ErrorCode::InvalidPrefixStatus);
            },
        };
        let ghost before = self.prefixes@;
        let mut rec = self.prefixes.remove(i);
        let r = approve_prefix_handler(&self.fee_registry, &self.verifiers, &verifier, &mut rec, ref_hash, now);
        self.prefixes.insert(i, rec);
        proof {
            assert(self.prefixes@ =~= before.update(i as int, rec));
            lemma_update_keeps_unique(before, i as int, rec);
            lemma_fees_update(before, i as int, rec);
            if r is Err {
                assert(self.prefixes@ =~= before);
            }
        }
        r
    }

    /// A verifier rejects the Pending record for `prefix`.
    pub fn reject_prefix(&mut self, verifier: Pubkey, prefix: &String, now: i64) -> (r: Result<(), ErrorCode>)
        requires
            old(self).wf(),
        ensures
            final(self).wf(),
            old(self).escrow_covers() ==> final(self).escrow_covers(),
            final(self).same_config(old(self)),
            match lookup(old(self).prefixes@, prefix@) {
                None => r == Err::<(), ErrorCode>(ErrorCode::InvalidPrefixStatus) && final(self).prefixes@
                    == old(self).prefixes@,
                Some(i) => {
                    &&& r == reject_check(old(self).fee_registry, old(self).verifiers, verifier,
                        old(self).prefixes@[i])
                    &&& final(self).prefixes@ == if r is Ok {
                        old(self).prefixes@.update(i, rejected(old(self).prefixes@[i], now))
                    } else {
                        old(self).prefixes@
                    }
                },
            },
    {
        let i = match self.find(prefix) {
            Some(i) => i,
            None => {
                return Err(ErrorCode::InvalidPrefixStatus);
            },
        };
        let ghost before = self.prefixes@;
        let mut rec = self.prefixes.remove(i);
        let r = reject_prefix_handler(&self.fee_registry, &self.verifiers, &verifier, &mut rec, now);
        self.prefixes.insert(i, rec);
        proof {
            assert(self.prefixes@ =~= before.update(i as int, rec));
            lemma_update_keeps_unique(before, i as int, rec);
            lemma_fees_update(before, i as int, rec);
            if r is Err {
                assert(self.prefixes@ =~= before);
            }
        }
        r
    }

    /// The owner of a Rejected or expired Pending record takes its fee back
    /// from the treasury; the record is destroyed.
    pub fn refund_prefix_fee(&mut self, owner: Pubkey, owner_lamports: &mut u64, prefix: &String, now: i64) -> (r:
        Result<(), ErrorCode>)
        requires
            old(self).wf(),
            *old(owner_lamports) + old(self).treasury <= u64::MAX,
        ensures
            final(self).wf(),
            old(self).escrow_covers() ==> final(self).escrow_covers(),
            final(self).fee_registry == old(self).fee_registry,
            final(self).verifiers == old(self).verifiers,
            match lookup(old(self).prefixes@, prefix@) {
                None => r == Err::<(), ErrorCode>(ErrorCode::InvalidPrefixStatus) && *final(self) == *old(self)
                    && *final(owner_lamports) == *old(owner_lamports),
                Some(i) => {
                    let fee = old(self).prefixes@[i].fee_paid;
                    &&& r == refund_check(old(self).fee_registry, owner, old(self).prefixes@[i],
                        old(self).treasury, now)
                    &&& r is Ok ==> {
                        &&& final(self).prefixes@ == old(self).prefixes@.remove(i)
                        &&& lookup(final(self).prefixes@, prefix@) is None
                        &&& final(self).treasury == old(self).treasury - fee
                        &&& *final(owner_lamports) == *old(owner_lamports) + fee
                    }
                    &&& r is Err ==> *final(self) == *old(self) && *final(owner_lamports) == *old(owner_lamports)
                },
            },
    {
        let i = match self.find(prefix) {
            Some(i) => i,
            None => {
                return Err(ErrorCode::InvalidPrefixStatus);
            },
        };
        let r = refund_prefix_fee_handler(
            &self.fee_registry,
            &owner,
            owner_lamports,
            &mut self.treasury,
            &self.prefixes[i],
            now,
        );
        if r.is_ok() {
            let ghost before = self.prefixes@;
            let _closed = self.prefixes.remove(i);
            proof {
                lemma_remove_keeps_unique(before, i as int);
                lemma_fees_remove(before, i as int);
            }
        }
        r
    }

    /// The owner replaces the metadata of the record for `prefix`.
    pub fn update_prefix_metadata(
        &mut self,
        owner: Pubkey,
        prefix: &String,
        new_uri: String,
        new_hash: [u8; 32],
        instructions: &Vec<Instruction>,
        now: i64,
    ) -> (r: Result<(), ErrorCode>)
        requires
            old(self).wf(),
        ensures
            final(self).wf(),
            old(self).escrow_covers() ==> final(self).escrow_covers(),
            final(self).same_config(old(self)),
            match lookup(old(self).prefixes@, prefix@) {
                None => r == Err::<(), ErrorCode>(ErrorCode::InvalidPrefixStatus) && final(self).prefixes@
                    == old(self).prefixes@,
                Some(i) => {
                    &&& r == update_metadata_check(owner, old(self).prefixes@[i], new_uri@, new_hash@,
                        instructions@)
                    &&& r is Ok ==> {
                        &&& final(self).prefixes@ == old(self).prefixes@.update(i, final(self).prefixes@[i])
                        &&& metadata_updated(old(self).prefixes@[i], final(self).prefixes@[i], new_uri,
                            new_hash, now)
                    }
                    &&& r is Err ==> final(self).prefixes@ == old(self).prefixes@
                },
            },
    {
        let i = match self.find(prefix) {
            Some(i) => i,
            None => {
                return Err(ErrorCode::InvalidPrefixStatus);
            },
        };
        let ghost before = self.prefixes@;
        let mut rec = self.prefixes.remove(i);
        let r = update_prefix_metadata_handler(&owner, &mut rec, new_uri, new_hash, instructions, now);
        self.prefixes.insert(i, rec);
        proof {
            assert(self.prefixes@ =~= before.update(i as int, rec));
            lemma_update_keeps_unique(before, i as int, rec);
            lemma_fees_update(before, i as int, rec);
            if r is Err {
                assert(self.prefixes@ =~= before);
            }
        }
        r
    }

    /// The owner replaces the authority keys of the record for `prefix`.
    pub fn update_prefix_authority(
        &mut self,
        owner: Pubkey,
        prefix: &String,
        authority_keys: Vec<Pubkey>,
        now: i64,
    ) -> (r: Result<(), ErrorCode>)
        requires
            old(self).wf(),
        ensures
            final(self).wf(),
            old(self).escrow_covers() ==> final(self).escrow_covers(),
            final(self).same_config(old(self)),
            match lookup(old(self).prefixes@, prefix@) {
                None => r == Err::<(), ErrorCode>(ErrorCode::InvalidPrefixStatus) && final(self).prefixes@
                    == old(self).prefixes@,
                Some(i) => {
                    &&& r == update_authority_check(owner, old(self).prefixes@[i], authority_keys@.len())
                    &&& final(self).prefixes@ == if r is Ok {
                        old(self).prefixes@.update(i, authority_updated(old(self).prefixes@[i], authority_keys, now))
                    } else {
                        old(self).prefixes@
                    }
                },
            },
    {
        let i = match self.find(prefix) {
            Some(i) => i,
            None => {
                return Err(ErrorCode::InvalidPrefixStatus);
            },
        };
        let ghost before = self.prefixes@;
        let mut rec = self.prefixes.remove(i);
        let r = update_prefix_authority_handler(&owner, &mut rec, authority_keys, now);
        self.prefixes.insert(i, rec);
        proof {
            assert(self.prefixes@ =~= before.update(i as int, rec));
            lemma_update_keeps_unique(before, i as int, rec);
            lemma_fees_update(before, i as int, rec);
            if r is Err {
                assert(self.prefixes@ =~= before);
            }
        }
        r
    }

    /// The admin takes the Active record for `prefix` out of service.
    pub fn deactivate_prefix(&mut self, admin: Pubkey, prefix: &String, now: i64) -> (r: Result<(), ErrorCode>)
        requires
            old(self).wf(),
        ensures
            final(self).wf(),
            old(self).escrow_covers() ==> final(self).escrow_covers(),
            final(self).same_config(old(self)),
            match lookup(old(self).prefixes@, prefix@) {
                None => r == Err::<(), ErrorCode>(ErrorCode::InvalidPrefixStatus) && final(self).prefixes@
                    == old(self).prefixes@,
                Some(i) => {
                    &&& r == admin_transition_check(old(self).fee_registry, admin, old(self).prefixes@[i],
                        PrefixStatus::Active)
                    &&& final(self).prefixes@ == if r is Ok {
                        old(self).prefixes@.update(i, with_status(old(self).prefixes@[i], PrefixStatus::Inactive, now))
                    } else {
                        old(self).prefixes@
                    }
                },
            },
    {
        let i = match self.find(prefix) {
            Some(i) => i,
            None => {
                return Err(ErrorCode::InvalidPrefixStatus);
            },
        };
        let ghost before = self.prefixes@;
        let mut rec = self.prefixes.remove(i);
        let r = deactivate_prefix_handler(&self.fee_registry, &admin, &mut rec, now);
        self.prefixes.insert(i, rec);
        proof {
            assert(self.prefixes@ =~= before.update(i as int, rec));
            lemma_update_keeps_unique(before, i as int, rec);
            lemma_fees_update(before, i as int, rec);
            if r is Err {
                assert(self.prefixes@ =~= before);
            }
        }
        r
    }

    /// The admin puts the Inactive record for `prefix` back in service.
    pub fn reactivate_prefix(&mut self, admin: Pubkey, prefix: &String, now: i64) -> (r: Result<(), ErrorCode>)
        requires
            old(self).wf(),
        ensures
            final(self).wf(),
            old(self).escrow_covers() ==> final(self).escrow_covers(),
            final(self).same_config(old(self)),
            match lookup(old(self).prefixes@, prefix@) {
                None => r == Err::<(), ErrorCode>(ErrorCode::InvalidPrefixStatus) && final(self).prefixes@
                    == old(self).prefixes@,
                Some(i) => {
                    &&& r == admin_transition_check(old(self).fee_registry, admin, old(self).prefixes@[i],
                        PrefixStatus::Inactive)
                    &&& final(self).prefixes@ == if r is Ok {
                        old(self).prefixes@.update(i, with_status(old(self).prefixes@[i], PrefixStatus::Active, now))
                    } else {
                        old(self).prefixes@
                    }
                },
            },
    {
        let i = match self.find(prefix) {
            Some(i) => i,
            None => {
                return Err(ErrorCode::InvalidPrefixStatus);
            },
        };
        let ghost before = self.prefixes@;
        let mut rec = self.prefixes.remove(i);
        let r = reactivate_prefix_handler(&self.fee_registry, &admin, &mut rec, now);
        self.prefixes.insert(i, rec);
        proof {
            assert(self.prefixes@ =~= before.update(i as int, rec));
            lemma_update_keeps_unique(before, i as int, rec);
            lemma_fees_update(before, i as int, rec);
            if r is Err {
                assert(self.prefixes@ =~= before);
            }
        }
        r
    }

    /// The admin and `new_owner`, signing together, move the record for
    /// `prefix` to `new_owner`, who pays the current fee into the treasury.
    pub fn recover_prefix_owner_with_fee(
        &mut self,
        admin: Pubkey,
        signer: Pubkey,
        signer_lamports: &mut u64,
        prefix: &String,
        new_owner: Pubkey,
        now: i64,
    ) -> (r: Result<(), ErrorCode>)
        requires
            old(self).wf(),
            *old(signer_lamports) + old(self).treasury <= u64::MAX,
        ensures
            final(self).wf(),
            old(self).escrow_covers() ==> final(self).escrow_covers(),
            final(self).fee_registry == old(self).fee_registry,
            final(self).verifiers == old(self).verifiers,
            match lookup(old(self).prefixes@, prefix@) {
                None => r == Err::<(), ErrorCode>(ErrorCode::InvalidPrefixStatus) && *final(self) == *old(self)
                    && *final(signer_lamports) == *old(signer_lamports),
                Some(i) => {
                    let fee = old(self).fee_registry.current_fee;
                    &&& r == recover_check(old(self).fee_registry, admin, signer, *old(signer_lamports), new_owner)
                    &&& r is Ok ==> {
                        &&& final(self).prefixes@ == old(self).prefixes@.update(
                            i,
                            owner_recovered(old(self).prefixes@[i], new_owner, now),
                        )
                        &&& final(self).treasury == old(self).treasury + fee
                        &&& *final(signer_lamports) == *old(signer_lamports) - fee
                    }
                    &&& r is Err ==> {
                        &&& final(self).prefixes@ == old(self).prefixes@
                        &&& final(self).treasury == old(self).treasury
                        &&& *final(signer_lamports) == *old(signer_lamports)
                    }
                },
            },
    {
        let i = match self.find(prefix) {
            Some(i) => i,
            None => {
                return Err(ErrorCode::InvalidPrefixStatus);
            },
        };
        let ghost before = self.prefixes@;
        let mut rec = self.prefixes.remove(i);
        let r = recover_prefix_owner_with_fee_handler(
            &self.fee_registry,
            &admin,
            &signer,
            signer_lamports,
            &mut self.treasury,
            &mut rec,
            new_owner,
            now,
        );
        self.prefixes.insert(i, rec);
        proof {
            assert(self.prefixes@ =~= before.update(i as int, rec));
            lemma_update_keeps_unique(before, i as int, rec);
            lemma_fees_update(before, i as int, rec);
            if r is Err {
                assert(self.prefixes@ =~= before);
            }
        }
        r
    }
    /// The admin sets the fee; allowed while paused.
    pub fn update_fee(&mut self, admin: Pubkey, new_fee: u64, now: i64) -> (r: Result<(), ErrorCode>)
        requires
            old(self).wf(),
        ensures
            final(self).wf(),
            old(self).escrow_covers() ==> final(self).escrow_covers(),
            r == admin_check(old(self).fee_registry, admin),
            final(self).verifiers == old(self).verifiers,
            final(self).treasury == old(self).treasury,
            final(self).prefixes == old(self).prefixes,
            r is Ok ==> final(self).fee_registry == (FeeRegistry {
                current_fee: new_fee,
                updated_at: now,
                ..old(self).fee_registry
            }),
            r is Err ==> final(self).fee_registry == old(self).fee_registry,
    {
        update_fee_handler(&admin, &mut self.fee_registry, new_fee, now)
    }

    /// The admin pauses or resumes the fee-bearing operations.
    pub fn set_pause(&mut self, admin: Pubkey, pause: bool, now: i64) -> (r: Result<(), ErrorCode>)
        requires
            old(self).wf(),
        ensures
            final(self).wf(),
            old(self).escrow_covers() ==> final(self).escrow_covers(),
            r == admin_check(old(self).fee_registry, admin),
            final(self).verifiers == old(self).verifiers,
            final(self).treasury == old(self).treasury,
            final(self).prefixes == old(self).prefixes,
            r is Ok ==> final(self).fee_registry == (FeeRegistry {
                pause: pause,
                updated_at: now,
                ..old(self).fee_registry
            }),
            r is Err ==> final(self).fee_registry == old(self).fee_registry,
    {
        set_pause_handler(&admin, &mut self.fee_registry, pause, now)
    }

    /// The admin adds a verifier to the directory.
    pub fn add_verifier(&mut self, admin: Pubkey, verifier: Pubkey, now: i64) -> (r: Result<(), ErrorCode>)
        requires
            old(self).wf(),
        ensures
            final(self).wf(),
            old(self).escrow_covers() ==> final(self).escrow_covers(),
            r == add_verifier_check(old(self).fee_registry, admin, old(self).verifiers, verifier),
            final(self).fee_registry == old(self).fee_registry,
            final(self).treasury == old(self).treasury,
            final(self).prefixes == old(self).prefixes,
            r is Ok ==> final(self).verifiers.verifiers@ == old(self).verifiers.verifiers@.push(verifier),
            r is Err ==> final(self).verifiers == old(self).verifiers,
    {
        add_verifier_handler(&admin, &self.fee_registry, &mut self.verifiers, verifier, now)
    }

    /// The admin removes a verifier from the directory.
    pub fn remove_verifier(&mut self, admin: Pubkey, verifier: Pubkey, now: i64) -> (r: Result<(), ErrorCode>)
        requires
            old(self).wf(),
        ensures
            final(self).wf(),
            old(self).escrow_covers() ==> final(self).escrow_covers(),
            r == remove_verifier_check(old(self).fee_registry, admin, old(self).verifiers, verifier),
            final(self).fee_registry == old(self).fee_registry,
            final(self).treasury == old(self).treasury,
            final(self).prefixes == old(self).prefixes,
            r is Ok ==> {
                &&& !final(self).verifiers.is_verifier(verifier)
                &&& exists|i: int|
                    0 <= i < old(self).verifiers.verifiers@.len() && old(self).verifiers.verifiers@[i] == verifier
                        && #[trigger] old(self).verifiers.verifiers@.remove(i) == final(self).verifiers.verifiers@
            },
            r is Err ==> final(self).verifiers == old(self).verifiers,
    {
        remove_verifier_handler(&admin, &self.fee_registry, &mut self.verifiers, verifier, now)
    }

    /// The admin moves `amount` from the treasury to `to`, whose balance is
    /// `to_lamports`.
    pub fn withdraw_treasury(&mut self, admin: Pubkey, to_lamports: &mut u64, amount: u64, to: Pubkey) -> (r: Result<
        (),
        ErrorCode,
    >)
        requires
            old(self).wf(),
            old(self).treasury + *old(to_lamports) <= u64::MAX,
        ensures
            final(self).wf(),
            r == withdraw_check(old(self).fee_registry, admin, old(self).treasury, to, amount, to),
            final(self).fee_registry == old(self).fee_registry,
            final(self).verifiers == old(self).verifiers,
            final(self).prefixes == old(self).prefixes,
            r is Ok ==> final(self).treasury == old(self).treasury - amount && *final(to_lamports)
                == *old(to_lamports) + amount,
            r is Err ==> final(self).treasury == old(self).treasury && *final(to_lamports) == *old(to_lamports),
    {
        withdraw_treasury_handler(&admin, &self.fee_registry, &mut self.treasury, &to, to_lamports, amount, to)
    }
}

} // verus!
