//! Patterns for escrows.
use vstd::prelude::*;

use crate::contract::EscrowContract;
use crate::creation::NewEscrow;
use crate::errors::EscrowError;
use crate::ledger::{answers, BookView, ConfigView, Ledger, LedgerView, Outcome};
use crate::storage::ContractStorage;
use crate::store::Record;
use crate::types::{
    Address, EscrowTemplate, Hash32, MilestoneTemplateView, MilestoneTemplates, TemplateView, Text,
};

verus! {

impl LedgerView {
    /// Keeps a template. The answer is its id.
    pub open spec fn template_created(
        self,
        caller: Address,
        name: Seq<u8>,
        milestones: Seq<MilestoneTemplateView>,
    ) -> Outcome<u64> {
        let id = self.config.template_counter;
        if self.config.admin is None {
            Err(EscrowError::E2)
        } else if self.config.paused {
            Err(EscrowError::E31)
        } else {
            Ok(
                (
                    self.authed(caller).with_config(
                        ConfigView { template_counter: (id + 1) as u64, ..self.config },
                    ).with_book(
                        BookView {
                            templates: self.book.templates.insert(
                                id,
                                TemplateView { id, creator: caller, name, milestones },
                            ),
                            ..self.book
                        },
                    ),
                    id,
                ),
            )
        }
    }

    /// Adds the first `k` milestones of a template to an escrow.
    pub open spec fn template_added(
        self,
        client: Address,
        id: u64,
        milestones: Seq<MilestoneTemplateView>,
        k: nat,
    ) -> Outcome<()>
        decreases k,
    {
        if k == 0 {
            Ok((self, ()))
        } else {
            match self.template_added(client, id, milestones, (k - 1) as nat) {
                Err(e) => Err(e),
                Ok((env, _)) => {
                    let t = milestones[k - 1];
                    match env.milestone_added(
                        client,
                        id,
                        t.title,
                        t.description_hash,
                        t.amount,
                        None,
                        EscrowError::E55,
                    ) {
                        Err(e) => Err(e),
                        Ok((post, _)) => Ok((post, ())),
                    }
                },
            }
        }
    }

    /// Creates an escrow with the milestones of a template.
    pub open spec fn from_template(
        self,
        caller: Address,
        template_id: u64,
        a: NewEscrow,
    ) -> Outcome<u64> {
        if self.config.admin is None {
            Err(EscrowError::E2)
        } else if self.config.paused {
            Err(EscrowError::E31)
        } else if caller != a.client {
            Err(EscrowError::E3)
        } else if !self.book.templates.contains_key(template_id) {
            Err(EscrowError::E8)
        } else {
            let ts = self.book.templates[template_id].milestones;
            match self.authed(caller).created(a) {
                Err(e) => Err(e),
                Ok((env, id)) => match env.template_added(a.client, id, ts, ts.len()) {
                    Err(e) => Err(e),
                    Ok((post, _)) => Ok((post, id)),
                },
            }
        }
    }

    /// Creates an escrow with the milestones of a template, on request.
    pub open spec fn create_from_template(
        self,
        caller: Address,
        template_id: u64,
        client: Address,
        freelancer: Address,
        token: Address,
        total_amount: i128,
        brief_hash: Hash32,
        arbiter: Option<Address>,
        deadline: Option<u64>,
    ) -> Outcome<u64> {
        self.from_template(
            caller,
            template_id,
            NewEscrow {
                client,
                freelancer,
                token,
                total_amount,
                brief_hash,
                arbiter,
                deadline,
                lock_time: None,
                dispute_timeout_ledger: None,
                buyer_signers: None,
                multisig: None,
                timelock: None,
                terms_hash: None,
            },
        )
    }

    /// The rent of an escrow has been paid up to now.
    pub open spec fn rent_current(self, id: u64) -> bool {
        self.has_meta(id) && self.meta(id).last_rent_collection_at == self.timestamp && self.meta(
            id,
        ).escrow_id == id
    }
}

proof fn lemma_template_added_err(
    env: LedgerView,
    client: Address,
    id: u64,
    ts: Seq<MilestoneTemplateView>,
    j: nat,
    k: nat,
)
    requires
        j <= k,
        env.template_added(client, id, ts, j) is Err,
    ensures
        env.template_added(client, id, ts, k) == env.template_added(client, id, ts, j),
    decreases k,
{
    if j < k {
        lemma_template_added_err(env, client, id, ts, j, (k - 1) as nat);
    }
}

/// Adding a milestone in the ledger of the creation leaves no rent due.
proof fn lemma_added_current(
    env: LedgerView,
    caller: Address,
    id: u64,
    title: Seq<u8>,
    description_hash: Hash32,
    amount: i128,
    too_long: EscrowError,
)
    requires
        env.rent_current(id),
    ensures
        env.milestone_added(caller, id, title, description_hash, amount, None, too_long) is Ok ==> {
            env.milestone_added(
                caller,
                id,
                title,
                description_hash,
                amount,
                None,
                too_long,
            )->Ok_0.0.rent_current(id)
        },
{
}

impl EscrowContract {
    /// Keeps a template.
    pub fn create_template(
        env: &mut Ledger,
        caller: Address,
        name: Text,
        milestones: MilestoneTemplates,
    ) -> (r: Result<u64, EscrowError>)
        requires
            old(env)@.config.template_counter < u64::MAX,
        ensures
            answers(
                r,
                old(env)@,
                final(env)@,
                old(env)@.template_created(caller, name@, milestones@),
            ),
    {
        ContractStorage::require_initialized(env)?;
        ContractStorage::require_not_paused(env)?;
        env.require_auth(caller);
        let id: u64 = env.config.template_counter;
        env.config.template_counter = id + 1;
        let template = EscrowTemplate { id, creator: caller, name, milestones };
        env.book.templates.set(id, template);
        Ok(id)
    }

    /// A template by its id.
    pub fn get_template(env: &Ledger, template_id: u64) -> (r: Result<EscrowTemplate, EscrowError>)
        ensures
            env@.config.admin is None ==> r == Err::<EscrowTemplate, EscrowError>(EscrowError::E2),
            env@.config.admin is Some && !env@.book.templates.contains_key(template_id) ==> r
                == Err::<EscrowTemplate, EscrowError>(EscrowError::E8),
            env@.config.admin is Some && env@.book.templates.contains_key(template_id) ==> r is Ok
                && r->Ok_0@ == env@.book.templates[template_id],
    {
        ContractStorage::require_initialized(env)?;
        match env.book.templates.get(template_id) {
            Some(t) => Ok(t),
            None => Err(EscrowError::E8),
        }
    }

    /// Creates an escrow with the milestones of a template.
    #[verifier::rlimit(40)]
    pub fn create_escrow_from_template(
        env: &mut Ledger,
        caller: Address,
        template_id: u64,
        client: Address,
        freelancer: Address,
        token: Address,
        total_amount: i128,
        brief_hash: Hash32,
        arbiter: Option<Address>,
        deadline: Option<u64>,
    ) -> (r: Result<u64, EscrowError>)
        requires
            old(env)@.config.escrow_counter < u64::MAX,
            old(env)@.room(1),
        ensures
            answers(
                r,
                old(env)@,
                final(env)@,
                old(env)@.create_from_template(
                    caller,
                    template_id,
                    client,
                    freelancer,
                    token,
                    total_amount,
                    brief_hash,
                    arbiter,
                    deadline,
                ),
            ),
    {
        let mut tx = env.dup();
        tx.require_auth(caller);
        ContractStorage::require_initialized(&tx)?;
        ContractStorage::require_not_paused(&tx)?;
        if caller != client {
            return Err(EscrowError::E3);
        }
        let template = Self::get_template(&tx, template_id)?;
        let id: u64 = Self::create_escrow_internal(
            &mut tx,
            client,
            freelancer,
            token,
            total_amount,
            brief_hash,
            arbiter,
            deadline,
            None,
            None,
            None,
            None,
            None,
            None,
            false,
        )?;
        let ghost base = tx@;
        let ghost ts = template@.milestones;
        let mut i: usize = 0;
        let mut failed: Option<EscrowError> = None;
        while i < template.milestones.items.len() && failed.is_none()
            invariant
                i <= ts.len(),
                ts == template@.milestones,
                failed is None ==> base.template_added(client, id, ts, i as nat) == Ok::<
                    (LedgerView, ()),
                    EscrowError,
                >((tx@, ())),
                failed is None ==> tx@.rent_current(id),
                failed matches Some(e) ==> base.template_added(client, id, ts, ts.len()) == Err::<
                    (LedgerView, ()),
                    EscrowError,
                >(e),
            decreases ts.len() - i,
        {
            let t = &template.milestones.items[i];
            proof {
                assert(t@ == ts[i as int]);
                if base.template_added(client, id, ts, (i + 1) as nat) is Err {
                    lemma_template_added_err(base, client, id, ts, (i + 1) as nat, ts.len());
                }
                lemma_added_current(
                    tx@,
                    client,
                    id,
                    t@.title,
                    t@.description_hash,
                    t@.amount,
                    EscrowError::E55,
                );
            }
            match Self::add_milestone_internal(
                &mut tx,
                client,
                id,
                t.title.dup(),
                t.description_hash,
                t.amount,
            ) {
                Ok(_) => {},
                Err(e) => {
                    failed = Some(e);
                },
            }
            i = i + 1;
        }
        if let Some(e) = failed {
            return Err(e);
        }
        *env = tx;
        Ok(id)
    }
}

} // verus!
