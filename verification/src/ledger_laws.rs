//! What holds of the ledger over any sequence of instructions.
use crate::address::Address;
use crate::context::TokenTransfer;
use crate::instructions::fee::fee_of;
use crate::instructions::initialize_config::MAX_FEE_BPS;
use crate::ledger::{
    accepted, after, canonical_address, is_sol_payment_at_count, sol_record_of, config_within_cap, empty_ledger, is_accepted_sol_payment_to,
    is_authorized_withdrawal_from, run, sol_payments_to, sol_records_complete, vault_signed_transfer,
    Ledger, Step,
};
use crate::laws::law_fee_at_most_a_tenth;
use crate::pda::derives_with_bump;
use crate::seeds::{sol_payment_seeds, vault_seeds};
use vstd::prelude::*;

verus! {

proof fn lemma_step_keeps_config(program_id: Address, l: Ledger, s: Step)
    ensures
        config_within_cap(l) ==> config_within_cap(after(program_id, l, s)),
        l.config is Some ==> after(program_id, l, s).config == l.config,
{
}

/// The fee is set once and never above 1000 basis points: over any sequence of
/// instructions, a configuration that exists stays as it is, and one created
/// along the way holds at most 1000 basis points.
pub proof fn law_configuration_set_once_within_cap(program_id: Address, l: Ledger, steps: Seq<Step>)
    requires
        config_within_cap(l),
    ensures
        config_within_cap(run(program_id, l, steps)),
        l.config is Some ==> run(program_id, l, steps).config == l.config,
    decreases steps.len(),
{
    if steps.len() > 0 {
        law_configuration_set_once_within_cap(program_id, l, steps.drop_last());
        lemma_step_keeps_config(program_id, run(program_id, l, steps.drop_last()), steps.last());
    }
}

/// In every state the program can reach, the configured fee is at most 1000 basis
/// points, so every accepted payment sends at most a tenth of its amount to the
/// treasury and never more than the amount.
pub proof fn law_reachable_payments_take_at_most_a_tenth(program_id: Address, steps: Seq<Step>, s: Step)
    ensures
        config_within_cap(run(program_id, empty_ledger(), steps)),
        accepted(program_id, run(program_id, empty_ledger(), steps), s) ==> match s {
            Step::PayWithSol { accounts, amount, .. } => 10 * fee_of(
                amount,
                accounts.config.data.platform_fee_bps,
            ) <= amount,
            Step::PayWithToken { accounts, amount, .. } => 10 * fee_of(
                amount,
                accounts.config.data.platform_fee_bps,
            ) <= amount,
            _ => true,
        },
{
    law_configuration_set_once_within_cap(program_id, empty_ledger(), steps);
    match s {
        Step::PayWithSol { accounts, amount, .. } => {
            if accepted(program_id, run(program_id, empty_ledger(), steps), s) {
                law_fee_at_most_a_tenth(amount, accounts.config.data.platform_fee_bps);
            }
        },
        Step::PayWithToken { accounts, amount, .. } => {
            if accepted(program_id, run(program_id, empty_ledger(), steps), s) {
                law_fee_at_most_a_tenth(amount, accounts.config.data.platform_fee_bps);
            }
        },
        _ => {},
    }
}

proof fn lemma_step_counts(program_id: Address, l: Ledger, s: Step, m: Seq<u8>)
    ensures
        l.merchants.contains_key(m) ==> after(program_id, l, s).merchants.contains_key(m),
        l.merchants.contains_key(m) ==> after(program_id, l, s).merchants[m].data.payment_count
            == l.merchants[m].data.payment_count + if is_accepted_sol_payment_to(
            program_id,
            l,
            s,
            m,
        ) {
            1int
        } else {
            0int
        },
        !l.merchants.contains_key(m) ==> !is_accepted_sol_payment_to(program_id, l, s, m),
        !l.merchants.contains_key(m) && after(program_id, l, s).merchants.contains_key(m)
            ==> after(program_id, l, s).merchants[m].data.payment_count == 0,
{
}

/// A merchant's payment count is the number of SOL payments to it that were
/// accepted: over any sequence of instructions from the empty ledger, a merchant
/// that exists has a count equal to the accepted SOL payments to it, and before
/// it exists none is accepted.
pub proof fn law_payment_count_is_accepted_sol_payments(
    program_id: Address,
    steps: Seq<Step>,
    m: Seq<u8>,
)
    ensures
        run(program_id, empty_ledger(), steps).merchants.contains_key(m) ==> run(
            program_id,
            empty_ledger(),
            steps,
        ).merchants[m].data.payment_count == sol_payments_to(program_id, empty_ledger(), steps, m),
        !run(program_id, empty_ledger(), steps).merchants.contains_key(m) ==> sol_payments_to(
            program_id,
            empty_ledger(),
            steps,
            m,
        ) == 0,
    decreases steps.len(),
{
    if steps.len() > 0 {
        law_payment_count_is_accepted_sol_payments(program_id, steps.drop_last(), m);
        lemma_step_counts(
            program_id,
            run(program_id, empty_ledger(), steps.drop_last()),
            steps.last(),
            m,
        );
    }
}

proof fn lemma_step_keeps_records(program_id: Address, l: Ledger, s: Step)
    requires
        sol_records_complete(program_id, l),
    ensures
        sol_records_complete(program_id, after(program_id, l, s)),
        forall|k: Seq<u8>|
            #[trigger] l.payments.contains_key(k) ==> after(program_id, l, s).payments.contains_key(k)
                && after(program_id, l, s).payments[k] == l.payments[k],
{
    let l2 = after(program_id, l, s);
    if accepted(program_id, l, s) {
        match s {
            Step::PayWithSol { accounts, amount, now, funded } => {
                let mk = accounts.merchant.key@;
                let c = accounts.merchant.data.payment_count;
                assert(accounts.payment.key@ == canonical_address(sol_payment_seeds(mk, c), program_id@));
                assert forall|m: Seq<u8>, i: u64|
                    #![trigger l2.merchants[m], sol_payment_seeds(m, i)]
                    l2.merchants.contains_key(m) && i < l2.merchants[m].data.payment_count
                        implies l2.payments.contains_key(
                        canonical_address(sol_payment_seeds(m, i), program_id@),
                    ) by {
                    if m == mk {
                        if i < c {
                            assert(l.merchants[m] == accounts.merchant);
                            assert(l.payments.contains_key(
                                canonical_address(sol_payment_seeds(m, i), program_id@),
                            ));
                        }
                    } else {
                        assert(l.merchants[m] == l2.merchants[m]);
                        assert(l.payments.contains_key(
                            canonical_address(sol_payment_seeds(m, i), program_id@),
                        ));
                    }
                }
            },
            Step::PayWithToken { .. } => {
                assert forall|m: Seq<u8>, i: u64|
                    #![trigger l2.merchants[m], sol_payment_seeds(m, i)]
                    l2.merchants.contains_key(m) && i < l2.merchants[m].data.payment_count
                        implies l2.payments.contains_key(
                        canonical_address(sol_payment_seeds(m, i), program_id@),
                    ) by {
                    assert(l.merchants[m] == l2.merchants[m]);
                    assert(l.payments.contains_key(
                        canonical_address(sol_payment_seeds(m, i), program_id@),
                    ));
                }
            },
            Step::InitializeMerchant { accounts } => {
                assert forall|m: Seq<u8>, i: u64|
                    #![trigger l2.merchants[m], sol_payment_seeds(m, i)]
                    l2.merchants.contains_key(m) && i < l2.merchants[m].data.payment_count
                        implies l2.payments.contains_key(
                        canonical_address(sol_payment_seeds(m, i), program_id@),
                    ) by {
                    if m != accounts.merchant.key@ {
                        assert(l.merchants[m] == l2.merchants[m]);
                        assert(l.payments.contains_key(
                            canonical_address(sol_payment_seeds(m, i), program_id@),
                        ));
                    }
                }
            },
            Step::WithdrawSol { .. } => {
                assert(l2.merchants == l.merchants);
                assert(l2.payments == l.payments);
            },
            _ => {
                assert(l2.merchants == l.merchants);
                assert(l2.payments == l.payments);
            },
        }
    }
}

/// Every SOL payment is kept on record and no record is overwritten: over any
/// sequence of instructions from a ledger where each merchant's payments are all
/// recorded, every record already there stays as it is, and for each merchant
/// and each count below its payment count a record sits at the canonical address
/// of that count's seeds.
pub proof fn law_sol_payments_all_recorded(program_id: Address, l: Ledger, steps: Seq<Step>)
    requires
        sol_records_complete(program_id, l),
    ensures
        sol_records_complete(program_id, run(program_id, l, steps)),
        forall|k: Seq<u8>|
            #[trigger] l.payments.contains_key(k) ==> run(program_id, l, steps).payments.contains_key(k)
                && run(program_id, l, steps).payments[k] == l.payments[k],
    decreases steps.len(),
{
    if steps.len() > 0 {
        let prev = run(program_id, l, steps.drop_last());
        law_sol_payments_all_recorded(program_id, l, steps.drop_last());
        lemma_step_keeps_records(program_id, prev, steps.last());
        assert forall|k: Seq<u8>| #[trigger] l.payments.contains_key(k) implies run(
            program_id,
            l,
            steps,
        ).payments.contains_key(k) && run(program_id, l, steps).payments[k] == l.payments[k] by {
            assert(prev.payments.contains_key(k));
        }
    }
}

/// From the empty ledger, every merchant's SOL payments are all recorded.
pub proof fn law_reachable_sol_payments_all_recorded(program_id: Address, steps: Seq<Step>)
    ensures
        sol_records_complete(program_id, run(program_id, empty_ledger(), steps)),
{
    law_sol_payments_all_recorded(program_id, empty_ledger(), steps);
}

proof fn lemma_step_debits_vault(program_id: Address, l: Ledger, s: Step, v: Seq<u8>)
    requires
        l.vaults.contains_key(v),
    ensures
        after(program_id, l, s).vaults.contains_key(v),
        after(program_id, l, s).vaults[v].lamports < l.vaults[v].lamports
            ==> is_authorized_withdrawal_from(program_id, l, s, v),
{
}

/// Only the merchant's own wallet takes lamports out of its vault: over any
/// sequence of instructions, by any signers, a vault that ends with fewer
/// lamports than it started with was debited by an accepted SOL withdrawal from
/// it, signed by the authority its merchant records, its address derived from
/// that merchant's seeds. No other instruction lowers a vault.
pub proof fn law_vault_debited_only_by_its_authority(
    program_id: Address,
    l: Ledger,
    steps: Seq<Step>,
    v: Seq<u8>,
)
    requires
        l.vaults.contains_key(v),
    ensures
        run(program_id, l, steps).vaults.contains_key(v),
        run(program_id, l, steps).vaults[v].lamports < l.vaults[v].lamports ==> exists|k: int|
            0 <= k < steps.len() && #[trigger] is_authorized_withdrawal_from(
                program_id,
                run(program_id, l, steps.take(k)),
                steps[k],
                v,
            ),
    decreases steps.len(),
{
    if steps.len() > 0 {
        let prev_steps = steps.drop_last();
        let prev = run(program_id, l, prev_steps);
        law_vault_debited_only_by_its_authority(program_id, l, prev_steps, v);
        lemma_step_debits_vault(program_id, prev, steps.last(), v);
        let n = steps.len() - 1;
        assert(steps.take(n) =~= prev_steps);
        if run(program_id, l, steps).vaults[v].lamports < l.vaults[v].lamports {
            if run(program_id, l, steps).vaults[v].lamports < prev.vaults[v].lamports {
                assert(is_authorized_withdrawal_from(program_id, run(program_id, l, steps.take(n)), steps[n], v));
            } else {
                let k = choose|k: int|
                    0 <= k < prev_steps.len() && #[trigger] is_authorized_withdrawal_from(
                        program_id,
                        run(program_id, l, prev_steps.take(k)),
                        prev_steps[k],
                        v,
                    );
                assert(prev_steps.take(k) =~= steps.take(k));
                assert(prev_steps[k] == steps[k]);
                assert(is_authorized_withdrawal_from(program_id, run(program_id, l, steps.take(k)), steps[k], v));
            }
        }
    }
}

/// Only the merchant's own wallet has tokens moved out of its vault: in any state,
/// the one instruction that asks for a transfer signed by a vault is an accepted
/// token withdrawal, signed by the authority the vault's merchant records, with
/// the vault at the address that merchant's seeds derive; payments ask only for
/// transfers signed by their payer.
pub proof fn law_vault_signed_transfers_only_by_its_authority(program_id: Address, l: Ledger, s: Step)
    ensures
        vault_signed_transfer(program_id, l, s) is Some ==> {
            &&& s matches Step::WithdrawToken { accounts, .. }
            &&& accepted(program_id, l, s)
            &&& s->WithdrawToken_accounts.merchant.data.authority@ == s->WithdrawToken_accounts.authority.key@
            &&& vault_signed_transfer(program_id, l, s)->0.authority == s->WithdrawToken_accounts.vault.key
            &&& derives_with_bump(
                vault_seeds(s->WithdrawToken_accounts.merchant.key@),
                s->WithdrawToken_accounts.vault.data.bump,
                s->WithdrawToken_accounts.vault.key@,
                program_id@,
            )
        },
{
}

proof fn lemma_step_never_overwrites(program_id: Address, l: Ledger, s: Step)
    ensures
        forall|k: Seq<u8>|
            #[trigger] l.payments.contains_key(k) ==> after(program_id, l, s).payments.contains_key(k)
                && after(program_id, l, s).payments[k] == l.payments[k],
{
}

proof fn lemma_run_never_overwrites(program_id: Address, l: Ledger, steps: Seq<Step>)
    ensures
        forall|k: Seq<u8>|
            #[trigger] l.payments.contains_key(k) ==> run(program_id, l, steps).payments.contains_key(k)
                && run(program_id, l, steps).payments[k] == l.payments[k],
    decreases steps.len(),
{
    if steps.len() > 0 {
        let prev = run(program_id, l, steps.drop_last());
        lemma_run_never_overwrites(program_id, l, steps.drop_last());
        lemma_step_never_overwrites(program_id, prev, steps.last());
        assert forall|k: Seq<u8>| #[trigger] l.payments.contains_key(k) implies run(
            program_id,
            l,
            steps,
        ).payments.contains_key(k) && run(program_id, l, steps).payments[k] == l.payments[k] by {
            assert(prev.payments.contains_key(k));
        }
    }
}

/// Running a sequence is running its first `k` steps, then the rest.
proof fn lemma_run_split(program_id: Address, l: Ledger, steps: Seq<Step>, k: int)
    requires
        0 <= k <= steps.len(),
    ensures
        run(program_id, l, steps) == run(program_id, run(program_id, l, steps.take(k)), steps.skip(k)),
    decreases steps.len(),
{
    if k == steps.len() {
        assert(steps.take(k) =~= steps);
        assert(steps.skip(k) =~= Seq::<Step>::empty());
    } else {
        let prev = steps.drop_last();
        lemma_run_split(program_id, l, prev, k);
        assert(prev.take(k) =~= steps.take(k));
        assert(steps.skip(k).drop_last() =~= prev.skip(k));
        assert(steps.skip(k).last() == steps.last());
    }
}

/// Each SOL payment record holds its payment: where the `k`-th step of any
/// sequence is an accepted SOL payment, made when its merchant's count was `i`,
/// the record at the canonical address of that merchant's seeds for `i` holds,
/// after the whole sequence, exactly the record that payment wrote.
pub proof fn law_sol_record_holds_its_payment(program_id: Address, l: Ledger, steps: Seq<Step>, k: int)
    requires
        0 <= k < steps.len(),
        steps[k] is PayWithSol,
        accepted(program_id, run(program_id, l, steps.take(k)), steps[k]),
    ensures
        ({
            let a = steps[k]->PayWithSol_accounts;
            let key = canonical_address(
                sol_payment_seeds(a.merchant.key@, a.merchant.data.payment_count),
                program_id@,
            );
            &&& run(program_id, l, steps).payments.contains_key(key)
            &&& run(program_id, l, steps).payments[key] == sol_record_of(program_id, steps[k])
        }),
{
    let a = steps[k]->PayWithSol_accounts;
    let key = canonical_address(
        sol_payment_seeds(a.merchant.key@, a.merchant.data.payment_count),
        program_id@,
    );
    assert(steps.take(k + 1).drop_last() =~= steps.take(k));
    assert(steps.take(k + 1).last() == steps[k]);
    let at = run(program_id, l, steps.take(k + 1));
    assert(a.payment.key@ == key);
    assert(at.payments.contains_key(key) && at.payments[key] == sol_record_of(program_id, steps[k]));
    lemma_run_split(program_id, l, steps, k + 1);
    lemma_run_never_overwrites(program_id, at, steps.skip(k + 1));
}

/// Some step of `steps`, run from the empty ledger, was an accepted SOL payment to
/// the merchant at `m` made when its count was `i`.
pub open spec fn count_was_paid(program_id: Address, steps: Seq<Step>, m: Seq<u8>, i: u64) -> bool {
    exists|k: int|
        0 <= k < steps.len() && #[trigger] is_sol_payment_at_count(
            program_id,
            run(program_id, empty_ledger(), steps.take(k)),
            steps[k],
            m,
            i,
        )
}

/// Every count below a merchant's payment count was taken by a SOL payment: over
/// any sequence of instructions from the empty ledger, for each merchant and each
/// `i` below its count, some step was an accepted SOL payment to that merchant
/// made when its count was `i` (whose record, by `law_sol_record_holds_its_payment`,
/// is the one at the canonical address for `i`).
pub proof fn law_each_count_has_its_payment(program_id: Address, steps: Seq<Step>)
    ensures
        forall|m: Seq<u8>, i: u64|
            run(program_id, empty_ledger(), steps).merchants.contains_key(m) && i < run(
                program_id,
                empty_ledger(),
                steps,
            ).merchants[m].data.payment_count ==> #[trigger] count_was_paid(program_id, steps, m, i),
    decreases steps.len(),
{
    if steps.len() > 0 {
        let e = empty_ledger();
        let prev_steps = steps.drop_last();
        let prev = run(program_id, e, prev_steps);
        let now = run(program_id, e, steps);
        let n = steps.len() - 1;
        law_each_count_has_its_payment(program_id, prev_steps);
        assert(steps.take(n) =~= prev_steps);
        assert forall|m: Seq<u8>, i: u64|
            now.merchants.contains_key(m) && i < now.merchants[m].data.payment_count implies #[trigger] count_was_paid(
                program_id,
                steps,
                m,
                i,
            ) by {
            lemma_step_counts(program_id, prev, steps.last(), m);
            if prev.merchants.contains_key(m) && i < prev.merchants[m].data.payment_count {
                assert(count_was_paid(program_id, prev_steps, m, i));
                let k = choose|k: int|
                    0 <= k < prev_steps.len() && #[trigger] is_sol_payment_at_count(
                        program_id,
                        run(program_id, e, prev_steps.take(k)),
                        prev_steps[k],
                        m,
                        i,
                    );
                assert(prev_steps.take(k) =~= steps.take(k));
                assert(prev_steps[k] == steps[k]);
                assert(is_sol_payment_at_count(program_id, run(program_id, e, steps.take(k)), steps[k], m, i));
            } else {
                assert(is_sol_payment_at_count(program_id, run(program_id, e, steps.take(n)), steps[n], m, i));
            }
        }
    } else {
        assert(run(program_id, empty_ledger(), steps) == empty_ledger());
    }
}

/// The record at the canonical address of the merchant `m`'s seeds for count `i`
/// is the one written by an accepted SOL payment to `m` made when its count was
/// `i`, among `steps` run from the empty ledger.
pub open spec fn record_holds_payment(program_id: Address, steps: Seq<Step>, m: Seq<u8>, i: u64) -> bool {
    exists|k: int|
        0 <= k < steps.len() && #[trigger] is_sol_payment_at_count(
            program_id,
            run(program_id, empty_ledger(), steps.take(k)),
            steps[k],
            m,
            i,
        ) && run(program_id, empty_ledger(), steps).payments.contains_key(
            canonical_address(sol_payment_seeds(m, i), program_id@),
        ) && run(program_id, empty_ledger(), steps).payments[canonical_address(
            sol_payment_seeds(m, i),
            program_id@,
        )] == sol_record_of(program_id, steps[k])
}

/// Each merchant's SOL payments are on record, each in its own place: over any
/// sequence of instructions from the empty ledger, for each merchant and each
/// count `i` below its payment count, the record at the canonical address of the
/// merchant's seeds for `i` is exactly the record written by the accepted SOL
/// payment made when the merchant's count was `i`.
pub proof fn law_reachable_records_hold_their_payments(program_id: Address, steps: Seq<Step>)
    ensures
        forall|m: Seq<u8>, i: u64|
            run(program_id, empty_ledger(), steps).merchants.contains_key(m) && i < run(
                program_id,
                empty_ledger(),
                steps,
            ).merchants[m].data.payment_count ==> #[trigger] record_holds_payment(program_id, steps, m, i),
{
    law_each_count_has_its_payment(program_id, steps);
    let fin = run(program_id, empty_ledger(), steps);
    assert forall|m: Seq<u8>, i: u64|
        fin.merchants.contains_key(m) && i < fin.merchants[m].data.payment_count implies #[trigger] record_holds_payment(
            program_id,
            steps,
            m,
            i,
        ) by {
        assert(count_was_paid(program_id, steps, m, i));
        let k = choose|k: int|
            0 <= k < steps.len() && #[trigger] is_sol_payment_at_count(
                program_id,
                run(program_id, empty_ledger(), steps.take(k)),
                steps[k],
                m,
                i,
            );
        law_sol_record_holds_its_payment(program_id, empty_ledger(), steps, k);
    }
}

} // verus!
