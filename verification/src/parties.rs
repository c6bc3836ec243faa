//! The terms of a running escrow, and who takes part in it.
use vstd::prelude::*;

use crate::contract::EscrowContract;
use crate::errors::EscrowError;
use crate::events::Event;
use crate::index::{append_id, lemma_without_len, listed, remove_id};
use crate::ledger::{answers, BookView, Ledger, LedgerView, Outcome};
use crate::storage::ContractStorage;
use crate::types::{
    Address, DexConfig, DexSwapRecord, EscrowStatus, MetaView, TermsAcceptance, TokenPair,
};

verus! {

/// Whether an exchange trades a pair.
pub open spec fn trades(pairs: Seq<TokenPair>, from: Address, to: Address) -> bool {
    pairs.contains(TokenPair { from, to })
}

impl LedgerView {
    /// Hands the client's role on, and the escrow's place in the list of who
    /// takes part.
    pub open spec fn transfer_client(self, id: u64, new_client: Address) -> Outcome<()> {
        if self.config.paused {
            Err(EscrowError::E31)
        } else {
            match self.accessed(id) {
                Err(e) => Err(e),
                Ok((env, m)) => if m.status != EscrowStatus::Active {
                    Err(EscrowError::E9)
                } else if new_client == m.freelancer || m.arbiter == Some(new_client) {
                    Err(EscrowError::E3)
                } else {
                    Ok(
                        (
                            env.authed(m.client).saved_meta(
                                MetaView { client: new_client, ..m },
                            ).left(m.client, id).joined(new_client, id).told(
                                Event::ClientRoleTransferred {
                                    escrow_id: id,
                                    old_client: m.client,
                                    new_client,
                                },
                            ),
                            (),
                        ),
                    )
                },
            }
        }
    }

    /// Replaces the arbiter; both parties have to sign.
    pub open spec fn replace_arbiter(self, id: u64, arbiter: Option<Address>) -> Outcome<()> {
        if self.config.paused {
            Err(EscrowError::E31)
        } else {
            match self.accessed(id) {
                Err(e) => Err(e),
                Ok((env, m)) => if m.status != EscrowStatus::Active {
                    Err(EscrowError::E9)
                } else if arbiter == Some(m.client) || arbiter == Some(m.freelancer) {
                    Err(EscrowError::E3)
                } else {
                    Ok(
                        (
                            env.authed(m.client).authed(m.freelancer).saved_meta(
                                MetaView { arbiter, ..m },
                            ).told(Event::ArbiterUpdated { escrow_id: id, arbiter }),
                            (),
                        ),
                    )
                },
            }
        }
    }

    /// Accepts the terms of an escrow, once.
    pub open spec fn accept(self, caller: Address, id: u64) -> Outcome<()> {
        if self.config.admin is None {
            Err(EscrowError::E2)
        } else if self.config.paused {
            Err(EscrowError::E31)
        } else {
            match self.authed(caller).accessed(id) {
                Err(e) => Err(e),
                Ok((env, m)) => if caller != m.client {
                    Err(EscrowError::E5)
                } else if m.status != EscrowStatus::Active {
                    Err(EscrowError::E9)
                } else if m.terms_hash is None {
                    Err(EscrowError::TermsHashEmpty)
                } else {
                    let t = if env.book.terms.contains_key(id) {
                        env.book.terms[id]
                    } else {
                        TermsAcceptance {
                            escrow_id: id,
                            client: m.client,
                            terms_hash: m.terms_hash->Some_0,
                            accepted: false,
                            accepted_at: None,
                        }
                    };
                    if t.accepted {
                        Err(EscrowError::ClientAlreadyAcceptedTerms)
                    } else {
                        Ok(
                            (
                                env.with_book(
                                    BookView {
                                        terms: env.book.terms.insert(
                                            id,
                                            TermsAcceptance {
                                                accepted: true,
                                                accepted_at: Some(self.timestamp),
                                                ..t
                                            },
                                        ),
                                        ..env.book
                                    },
                                ).told(Event::TermsAccepted { escrow_id: id, client: caller }),
                                (),
                            ),
                        )
                    }
                },
            }
        }
    }

    /// Whether the client has accepted the terms of an escrow.
    pub open spec fn accepted(self, id: u64) -> Outcome<bool> {
        if self.config.admin is None {
            Err(EscrowError::E2)
        } else {
            match self.accessed(id) {
                Err(e) => Err(e),
                Ok((env, m)) => if m.terms_hash is None {
                    Ok((env, false))
                } else if !env.book.terms.contains_key(id) {
                    Err(EscrowError::ClientHasNotAcceptedTerms)
                } else {
                    Ok((env, env.book.terms[id].accepted))
                },
            }
        }
    }

    /// Notes a swap of a part of an escrow's balance.
    pub open spec fn swap(
        self,
        caller: Address,
        id: u64,
        token_in: Address,
        token_out: Address,
        amount_in: i128,
        min_amount_out: i128,
    ) -> Outcome<DexSwapRecord> {
        if self.config.admin is None {
            Err(EscrowError::E2)
        } else if self.config.paused {
            Err(EscrowError::E31)
        } else if self.is_frozen(id) {
            Err(EscrowError::E61)
        } else {
            match self.authed(caller).accessed(id) {
                Err(e) => Err(e),
                Ok((env, m)) => if caller != m.client {
                    Err(EscrowError::E5)
                } else if m.status != EscrowStatus::Active {
                    Err(EscrowError::E9)
                } else {
                    match self.config.dex_config {
                        None => Err(EscrowError::DexNotConfigured),
                        Some(pairs) => if !trades(pairs, token_in, token_out) || amount_in <= 0
                            || min_amount_out <= 0 || amount_in > m.remaining_balance {
                            Err(EscrowError::InvalidSwapParameters)
                        } else {
                            let record = DexSwapRecord {
                                escrow_id: id,
                                token_in,
                                token_out,
                                amount_in,
                                min_amount_out,
                                amount_out: Some(amount_in),
                                swapped_at: Some(self.timestamp),
                                success: true,
                            };
                            Ok(
                                (
                                    env.with_book(
                                        BookView {
                                            dex_swaps: env.book.dex_swaps.insert(id, record),
                                            ..env.book
                                        },
                                    ).saved_meta(
                                        MetaView {
                                            remaining_balance: (m.remaining_balance
                                                - amount_in) as i128,
                                            ..m
                                        },
                                    ).told(
                                        Event::DexSwap {
                                            escrow_id: id,
                                            token_in,
                                            token_out,
                                            amount_in,
                                        },
                                    ),
                                    record,
                                ),
                            )
                        },
                    }
                },
            }
        }
    }

    /// Sets how far the price may move before a release; the current price
    /// becomes the reference.
    pub open spec fn set_slippage(self, caller: Address, id: u64, bps: u32) -> Outcome<()> {
        if self.config.paused {
            Err(EscrowError::E31)
        } else {
            match self.authed(caller).accessed(id) {
                Err(e) => Err(e),
                Ok((env, m)) => if caller != m.client {
                    Err(EscrowError::E5)
                } else if m.status != EscrowStatus::Active {
                    Err(EscrowError::E9)
                } else if bps > 10_000 {
                    Err(EscrowError::E85)
                } else {
                    match env.price(m.token) {
                        Err(e) => Err(e),
                        Ok(price) => Ok(
                            (
                                env.saved_meta(
                                    MetaView {
                                        slippage_bps: bps,
                                        slippage_reference_price: price,
                                        ..m
                                    },
                                ),
                                (),
                            ),
                        ),
                    }
                },
            }
        }
    }

    /// Sets the arbiter's part of an escrow.
    pub open spec fn set_arbiter_fee(self, caller: Address, id: u64, bps: u32) -> Outcome<()> {
        match self.admin_check(caller) {
            Err(e) => Err(e),
            Ok(()) => if bps > 10_000 {
                Err(EscrowError::E88)
            } else if !self.has_meta(id) {
                Err(EscrowError::E8)
            } else {
                Ok(
                    (
                        self.authed(caller).saved_meta(
                            MetaView { arbiter_fee_bps: bps, ..self.meta(id) },
                        ),
                        (),
                    ),
                )
            },
        }
    }
}

impl EscrowContract {
    /// The client hands its role on.
    #[verifier::rlimit(40)]
    pub fn transfer_client_role(
        env: &mut Ledger,
        escrow_id: u64,
        new_client: Address,
    ) -> (r: Result<(), EscrowError>)
        requires
            old(env)@.rent_ok(escrow_id),
            old(env)@.room(1),
        ensures
            answers(r, old(env)@, final(env)@, old(env)@.transfer_client(escrow_id, new_client)),
    {
        let mut tx = env.dup();
        ContractStorage::require_not_paused(&tx)?;
        let mut meta = ContractStorage::load_escrow_meta_with_rent(&mut tx, escrow_id)?;
        tx.require_auth(meta.client);
        if meta.status != EscrowStatus::Active {
            return Err(EscrowError::E9);
        }
        if new_client == meta.freelancer {
            return Err(EscrowError::E3);
        }
        if let Some(a) = meta.arbiter {
            if new_client == a {
                return Err(EscrowError::E3);
            }
        }
        let old_client = meta.client;
        meta.client = new_client;
        ContractStorage::save_escrow_meta(&mut tx, &meta);
        remove_id(&mut tx.book.by_participant, &tx.host, old_client, escrow_id);
        proof {
            assert(listed(env@.book.by_participant, new_client).len() + 1 <= u32::MAX);
            lemma_without_len(listed(env@.book.by_participant, old_client), escrow_id);
        }
        append_id(&mut tx.book.by_participant, &tx.host, new_client, escrow_id);
        tx.publish(Event::ClientRoleTransferred { escrow_id, old_client, new_client });
        *env = tx;
        Ok(())
    }

    /// Both parties replace the arbiter.
    #[verifier::rlimit(40)]
    pub fn update_arbiter(env: &mut Ledger, escrow_id: u64, new_arbiter: Option<Address>) -> (r:
        Result<(), EscrowError>)
        requires
            old(env)@.rent_ok(escrow_id),
        ensures
            answers(r, old(env)@, final(env)@, old(env)@.replace_arbiter(escrow_id, new_arbiter)),
    {
        let mut tx = env.dup();
        ContractStorage::require_not_paused(&tx)?;
        let mut meta = ContractStorage::load_escrow_meta_with_rent(&mut tx, escrow_id)?;
        if meta.status != EscrowStatus::Active {
            return Err(EscrowError::E9);
        }
        tx.require_auth(meta.client);
        tx.require_auth(meta.freelancer);
        if let Some(a) = new_arbiter {
            if a == meta.client || a == meta.freelancer {
                return Err(EscrowError::E3);
            }
        }
        meta.arbiter = new_arbiter;
        ContractStorage::save_escrow_meta(&mut tx, &meta);
        tx.publish(Event::ArbiterUpdated { escrow_id, arbiter: new_arbiter });
        *env = tx;
        Ok(())
    }

    /// The client accepts the terms of an escrow.
    #[verifier::rlimit(40)]
    pub fn accept_terms(
        env: &mut Ledger,
        caller: Address,
        escrow_id: u64,
    ) -> (r: Result<(), EscrowError>)
        requires
            old(env)@.rent_ok(escrow_id),
        ensures
            answers(r, old(env)@, final(env)@, old(env)@.accept(caller, escrow_id)),
    {
        let mut tx = env.dup();
        ContractStorage::require_initialized(&tx)?;
        tx.require_auth(caller);
        ContractStorage::require_not_paused(&tx)?;
        let meta = ContractStorage::load_escrow_meta_with_rent(&mut tx, escrow_id)?;
        if caller != meta.client {
            return Err(EscrowError::E5);
        }
        if meta.status != EscrowStatus::Active {
            return Err(EscrowError::E9);
        }
        let terms_hash = match meta.terms_hash {
            None => {
                return Err(EscrowError::TermsHashEmpty);
            },
            Some(h) => h,
        };
        let mut t = match tx.book.terms.get(escrow_id) {
            Some(t) => t,
            None => TermsAcceptance {
                escrow_id,
                client: meta.client,
                terms_hash,
                accepted: false,
                accepted_at: None,
            },
        };
        if t.accepted {
            return Err(EscrowError::ClientAlreadyAcceptedTerms);
        }
        t.accepted = true;
        t.accepted_at = Some(tx.timestamp);
        tx.book.terms.set(escrow_id, t);
        tx.publish(Event::TermsAccepted { escrow_id, client: caller });
        *env = tx;
        Ok(())
    }

    /// Whether the client has accepted the terms of an escrow.
    pub fn check_terms_accepted(env: &mut Ledger, escrow_id: u64) -> (r: Result<bool, EscrowError>)
        requires
            old(env)@.rent_ok(escrow_id),
        ensures
            answers(r, old(env)@, final(env)@, old(env)@.accepted(escrow_id)),
    {
        let mut tx = env.dup();
        ContractStorage::require_initialized(&tx)?;
        let meta = ContractStorage::load_escrow_meta_with_rent(&mut tx, escrow_id)?;
        if meta.terms_hash.is_none() {
            *env = tx;
            return Ok(false);
        }
        let t = match tx.book.terms.get(escrow_id) {
            None => {
                return Err(EscrowError::ClientHasNotAcceptedTerms);
            },
            Some(t) => t,
        };
        *env = tx;
        Ok(t.accepted)
    }

    /// Whether an exchange trades a pair.
    fn is_traded(config: &DexConfig, from: Address, to: Address) -> (r: bool)
        ensures
            r == trades(config@, from, to),
    {
        let mut i: usize = 0;
        while i < config.items.len()
            invariant
                i <= config.items.len(),
                forall|j: int|
                    0 <= j < i ==> (#[trigger] config@[j]) != (TokenPair { from, to }),
            decreases config.items.len() - i,
        {
            let pair = config.items[i];
            if pair.from == from && pair.to == to {
                assert(config@[i as int] == (TokenPair { from, to }));
                return true;
            }
            i = i + 1;
        }
        false
    }

    /// The client swaps a part of an escrow's balance.
    #[verifier::rlimit(40)]
    pub fn swap_asset_via_dex(
        env: &mut Ledger,
        caller: Address,
        escrow_id: u64,
        token_in: Address,
        token_out: Address,
        amount_in: i128,
        min_amount_out: i128,
    ) -> (r: Result<DexSwapRecord, EscrowError>)
        requires
            old(env)@.rent_ok(escrow_id),
        ensures
            answers(
                r,
                old(env)@,
                final(env)@,
                old(env)@.swap(caller, escrow_id, token_in, token_out, amount_in, min_amount_out),
            ),
    {
        let mut tx = env.dup();
        tx.require_auth(caller);
        ContractStorage::require_initialized(&tx)?;
        ContractStorage::require_not_paused(&tx)?;
        ContractStorage::require_not_frozen(&tx, escrow_id)?;
        let mut meta = ContractStorage::load_escrow_meta_with_rent(&mut tx, escrow_id)?;
        if caller != meta.client {
            return Err(EscrowError::E5);
        }
        if meta.status != EscrowStatus::Active {
            return Err(EscrowError::E9);
        }
        let traded = match &tx.config.dex_config {
            None => {
                return Err(EscrowError::DexNotConfigured);
            },
            Some(c) => Self::is_traded(c, token_in, token_out),
        };
        if !traded {
            return Err(EscrowError::InvalidSwapParameters);
        }
        if amount_in <= 0 || min_amount_out <= 0 {
            return Err(EscrowError::InvalidSwapParameters);
        }
        if amount_in > meta.remaining_balance {
            return Err(EscrowError::InvalidSwapParameters);
        }
        let now: u64 = tx.timestamp;
        let record = DexSwapRecord {
            escrow_id,
            token_in,
            token_out,
            amount_in,
            min_amount_out,
            amount_out: Some(amount_in),
            swapped_at: Some(now),
            success: true,
        };
        tx.book.dex_swaps.set(escrow_id, record);
        meta.remaining_balance = meta.remaining_balance - amount_in;
        ContractStorage::save_escrow_meta(&mut tx, &meta);
        tx.publish(Event::DexSwap { escrow_id, token_in, token_out, amount_in });
        *env = tx;
        Ok(record)
    }

    /// The client sets how far the price may move before a release.
    pub fn set_slippage_bps(
        env: &mut Ledger,
        caller: Address,
        escrow_id: u64,
        slippage_bps: u32,
    ) -> (r: Result<(), EscrowError>)
        requires
            old(env)@.rent_ok(escrow_id),
        ensures
            answers(
                r,
                old(env)@,
                final(env)@,
                old(env)@.set_slippage(caller, escrow_id, slippage_bps),
            ),
    {
        let mut tx = env.dup();
        tx.require_auth(caller);
        ContractStorage::require_not_paused(&tx)?;
        let mut meta = ContractStorage::load_escrow_meta_with_rent(&mut tx, escrow_id)?;
        if caller != meta.client {
            return Err(EscrowError::E5);
        }
        if meta.status != EscrowStatus::Active {
            return Err(EscrowError::E9);
        }
        if slippage_bps > 10_000 {
            return Err(EscrowError::E85);
        }
        let reference: i128 = tx.price_of(meta.token)?;
        meta.slippage_bps = slippage_bps;
        meta.slippage_reference_price = reference;
        ContractStorage::save_escrow_meta(&mut tx, &meta);
        *env = tx;
        Ok(())
    }

    /// The admin sets the arbiter's part of an escrow.
    pub fn set_arbiter_fee_bps(
        env: &mut Ledger,
        caller: Address,
        escrow_id: u64,
        fee_bps: u32,
    ) -> (r: Result<(), EscrowError>)
        ensures
            answers(
                r,
                old(env)@,
                final(env)@,
                old(env)@.set_arbiter_fee(caller, escrow_id, fee_bps),
            ),
    {
        let mut tx = env.dup();
        tx.require_auth(caller);
        ContractStorage::require_admin(&tx, caller)?;
        if fee_bps > 10_000 {
            return Err(EscrowError::E88);
        }
        let mut meta = ContractStorage::load_escrow_meta(&tx, escrow_id)?;
        meta.arbiter_fee_bps = fee_bps;
        ContractStorage::save_escrow_meta(&mut tx, &meta);
        *env = tx;
        Ok(())
    }
}

} // verus!
