use vstd::prelude::*;

use crate::account::{spec_is_zero, AccountId};
use crate::psp22::{Balance, LedgerView, Psp22Error};
use crate::wrapper::{
    amount_to_use, is_listed, spec_conclude, updated, CallEnv, Error, NativeTransfer, Outcome,
    Refusal, WrapperView,
};

verus! {

/// With a fee percentage of at most 100, the fee never exceeds the amount,
/// and the fee and the leftover add up to the amount.
pub proof fn lemma_fee_splits_amount(s: WrapperView, amount: Balance)
    requires
        s.fee_percentage <= 100,
    ensures
        s.fee_from_amount(amount) <= amount,
        s.fee_from_amount(amount) + s.leftover(amount) == amount,
{
    let product = amount * s.fee_percentage;
    assert(product <= amount * 100) by (nonlinear_arith)
        requires
            s.fee_percentage <= 100,
            product == amount * s.fee_percentage,
            amount >= 0,
    ;
    if product > Balance::MAX {
        assert(Balance::MAX as int / 100 <= amount) by (nonlinear_arith)
            requires
                product > Balance::MAX,
                product <= amount * 100,
        ;
    } else {
        assert(product / 100 <= amount) by (nonlinear_arith)
            requires
                product <= amount * 100,
                product >= 0,
        ;
    }
}

/// A wrap that the verdict refuses returns the verdict's error, changes
/// nothing and asks no hook.
pub proof fn lemma_refused_wrap_changes_nothing(
    s: WrapperView,
    env: CallEnv,
    answers: Seq<bool>,
    k: int,
    token_address: Option<AccountId>,
    sender: AccountId,
    mint_for: AccountId,
    amount: Balance,
)
    requires
        s.wrap_verdict(env, token_address, amount) is Err,
    ensures
        ({
            let m = s.wrap_result(env, answers, k, token_address, sender, mint_for, amount);
            &&& m.result == Err::<Option<NativeTransfer>, Error>(
                s.wrap_verdict(env, token_address, amount)->Err_0,
            )
            &&& m.state == s
            &&& m.questions == Seq::<crate::psp22::HookQuestion>::empty()
        }),
{
}

/// Every failed wrap or unwrap leaves the contract as it was.
pub proof fn lemma_failed_messages_change_nothing(
    s: WrapperView,
    env: CallEnv,
    answers: Seq<bool>,
    k: int,
    token_address: Option<AccountId>,
    sender: AccountId,
    other: AccountId,
    amount: Balance,
)
    ensures
        s.wrap_result(env, answers, k, token_address, sender, other, amount).result is Err ==> s.wrap_result(
            env,
            answers,
            k,
            token_address,
            sender,
            other,
            amount,
        ).state == s,
        s.unwrap_result(env, answers, k, token_address, sender, other, amount).result is Err
            ==> s.unwrap_result(env, answers, k, token_address, sender, other, amount).state == s,
{
}

/// A successful wrap keeps the supply within the wrapping limit: what it
/// mints never exceeds the amount that the limit was checked against.
pub proof fn lemma_wrap_respects_limit(
    s: WrapperView,
    env: CallEnv,
    answers: Seq<bool>,
    k: int,
    token_address: Option<AccountId>,
    sender: AccountId,
    mint_for: AccountId,
    amount: Balance,
)
    requires
        s.ledger.supply <= s.wrapping_limit,
        !s.wrap_overflows(env, answers, k, token_address, sender, mint_for, amount),
        s.wrap_result(env, answers, k, token_address, sender, mint_for, amount).result is Ok,
    ensures
        s.wrap_result(env, answers, k, token_address, sender, mint_for, amount).state.ledger.supply
            <= s.wrapping_limit,
{
}

/// Wrapping native funds for a non-zero account, once the verdict passes,
/// mints the leftover of the value sent for that account, raising the
/// supply by as much, and asks the chain to pay the fee to the fee
/// recipient, a refusal reverting the message; with a fee percentage of at
/// most 100, what is minted and the fee add up to the value sent.
pub proof fn lemma_native_wrap_mints_leftover(
    s: WrapperView,
    env: CallEnv,
    answers: Seq<bool>,
    k: int,
    sender: AccountId,
    mint_for: AccountId,
    amount: Balance,
)
    requires
        !spec_is_zero(mint_for),
        s.wrap_verdict(env, None, amount) is Ok,
        !s.wrap_overflows(env, answers, k, None, sender, mint_for, amount),
    ensures
        ({
            let m = s.wrap_result(env, answers, k, None, sender, mint_for, amount);
            let minted = s.leftover(env.transferred_value);
            let fee = s.fee_from_amount(env.transferred_value);
            let transfer = NativeTransfer {
                to: s.fee_recipient,
                amount: fee,
                on_refusal: Refusal::Reported(Error::TransferError),
            };
            &&& m.result == Ok::<Option<NativeTransfer>, Error>(Some(transfer))
            &&& m.state.ledger.supply == s.ledger.supply + minted
            &&& m.state.ledger.balance(mint_for) == s.ledger.balance(mint_for) + minted
            &&& forall|a: AccountId|
                a != mint_for ==> m.state.ledger.balance(a) == s.ledger.balance(a)
            &&& spec_conclude(Ok(()), Some(transfer), false) == Outcome::Reverted(
                Error::TransferError,
            )
            &&& s.fee_percentage <= 100 ==> minted + fee == env.transferred_value
        }),
{
    if s.fee_percentage <= 100 {
        lemma_fee_splits_amount(s, env.transferred_value);
    }
}

/// A successful wrap of a PSP22 token, between a sender, the contract, the
/// fee recipient and a beneficiary that are four distinct non-zero accounts,
/// takes the leftover and the fee from the sender, gives the leftover to the
/// contract and the fee to the fee recipient, and mints the leftover for the
/// beneficiary.
pub proof fn lemma_psp22_wrap_moves_and_mints(
    s: WrapperView,
    env: CallEnv,
    answers: Seq<bool>,
    k: int,
    token: AccountId,
    sender: AccountId,
    mint_for: AccountId,
    amount: Balance,
)
    requires
        !s.wrap_overflows(env, answers, k, Some(token), sender, mint_for, amount),
        s.wrap_result(env, answers, k, Some(token), sender, mint_for, amount).result is Ok,
        !spec_is_zero(mint_for),
        sender != env.account_id,
        sender != s.fee_recipient,
        sender != mint_for,
        env.account_id != s.fee_recipient,
        env.account_id != mint_for,
        s.fee_recipient != mint_for,
    ensures
        ({
            let after = s.wrap_result(env, answers, k, Some(token), sender, mint_for, amount).state;
            let cost = s.fee_from_amount(amount);
            let leftover = s.leftover(amount);
            &&& after.ledger.balance(sender) == s.ledger.balance(sender) - leftover - cost
            &&& after.ledger.balance(env.account_id) == s.ledger.balance(env.account_id) + leftover
            &&& after.ledger.balance(s.fee_recipient) == s.ledger.balance(s.fee_recipient) + cost
            &&& after.ledger.balance(mint_for) == s.ledger.balance(mint_for) + leftover
            &&& after.ledger.supply == s.ledger.supply + leftover
        }),
{
}

/// A successful native unwrap burns the amount from a non-zero holder and
/// pays exactly the amount to the recipient; if the chain refuses that
/// payment the message traps and its changes are reverted.
pub proof fn lemma_native_unwrap_burns_and_pays(
    s: WrapperView,
    env: CallEnv,
    answers: Seq<bool>,
    k: int,
    sender: AccountId,
    burn_for: AccountId,
    amount: Balance,
)
    requires
        s.unwrapping_check(env, None, amount) is Ok,
        !spec_is_zero(burn_for),
        amount <= s.ledger.balance(burn_for),
        !s.unwrap_overflows(env, None, sender, burn_for, amount),
    ensures
        ({
            let m = s.unwrap_result(env, answers, k, None, sender, burn_for, amount);
            let payment = NativeTransfer { to: sender, amount, on_refusal: Refusal::Trap };
            &&& m.result == Ok::<Option<NativeTransfer>, Error>(Some(payment))
            &&& m.state.ledger.supply == s.ledger.supply - amount
            &&& m.state.ledger.balance(burn_for) == s.ledger.balance(burn_for) - amount
            &&& spec_conclude(Ok(()), Some(payment), false) == Outcome::Trapped
            &&& spec_conclude(Ok(()), Some(payment), true) == Outcome::Kept
        }),
{
}

/// A PSP22 unwrap pays from the contract's own balance: when it succeeds,
/// between a holder, the contract and a recipient that are distinct, the
/// holder loses the amount (burnt), the contract pays the amount out and the
/// recipient receives it; nothing is paid when the burn is refused.
pub proof fn lemma_psp22_unwrap_pays_from_contract(
    s: WrapperView,
    env: CallEnv,
    answers: Seq<bool>,
    k: int,
    token: AccountId,
    sender: AccountId,
    burn_for: AccountId,
    amount: Balance,
)
    requires
        !s.unwrap_overflows(env, Some(token), sender, burn_for, amount),
        burn_for != env.account_id,
        burn_for != sender,
        sender != env.account_id,
    ensures
        ({
            let m = s.unwrap_result(env, answers, k, Some(token), sender, burn_for, amount);
            &&& m.result is Ok ==> {
                &&& m.state.ledger.balance(burn_for) == s.ledger.balance(burn_for) - amount
                &&& m.state.ledger.balance(env.account_id) == s.ledger.balance(env.account_id)
                    - amount
                &&& m.state.ledger.balance(sender) == s.ledger.balance(sender) + amount
                &&& m.state.ledger.supply == s.ledger.supply - amount
            }
            &&& s.ledger.burn_result(burn_for, amount).0 is Err ==> m.result is Err && m.state == s
        }),
{
}

/// A token-list proposal succeeds only when the governor makes it with the
/// nonce that follows the current one, and then the nonce becomes that
/// value; a refused proposal, in particular one by anyone else, changes
/// nothing.
pub proof fn lemma_proposals_follow_the_nonce(
    s: WrapperView,
    caller: AccountId,
    token: AccountId,
    nonce: u64,
)
    ensures
        ({
            let (r, after) = s.add_token_result(caller, token, nonce);
            &&& r is Ok ==> caller == s.governor && nonce == s.proposal_nonce + 1
                && after.proposal_nonce == nonce
            &&& r is Err ==> after == s
            &&& caller != s.governor ==> r == Err::<(), Error>(Error::Unauthorize)
        }),
        ({
            let (r, after) = s.remove_token_result(caller, token, nonce);
            &&& r is Ok ==> caller == s.governor && nonce == s.proposal_nonce + 1
                && after.proposal_nonce == nonce
            &&& r is Err ==> after == s
            &&& caller != s.governor ==> r == Err::<(), Error>(Error::Unauthorize)
        }),
{
}

/// Token-list proposals never forget a token: whatever the historical lists
/// recorded as added stays recorded.
pub proof fn lemma_history_is_kept(
    s: WrapperView,
    caller: AccountId,
    token: AccountId,
    nonce: u64,
    other: AccountId,
)
    requires
        is_listed(s.historically_valid, other),
        is_listed(s.historical_tokens, other),
    ensures
        is_listed(s.add_token_result(caller, token, nonce).1.historically_valid, other),
        is_listed(s.add_token_result(caller, token, nonce).1.historical_tokens, other),
        s.remove_token_result(caller, token, nonce).1.historically_valid == s.historically_valid,
        s.remove_token_result(caller, token, nonce).1.historical_tokens == s.historical_tokens,
{
}

/// The governor adding a token, removing it and adding it again, each time
/// with the next nonce: all three succeed; after the removal the token is no
/// longer valid (a second removal is refused) yet stays historically valid;
/// after the second addition it is valid again.
pub proof fn lemma_add_remove_add(s: WrapperView, token: AccountId)
    requires
        !is_listed(s.valid, token),
        s.proposal_nonce + 3 <= u64::MAX,
    ensures
        ({
            let g = s.governor;
            let (added, s1) = s.add_token_result(g, token, (s.proposal_nonce + 1) as u64);
            let (removed, s2) = s1.remove_token_result(g, token, (s.proposal_nonce + 2) as u64);
            let (again, s3) = s2.remove_token_result(g, token, (s.proposal_nonce + 3) as u64);
            let (readded, s4) = s2.add_token_result(g, token, (s.proposal_nonce + 3) as u64);
            &&& added is Ok
            &&& removed is Ok
            &&& !is_listed(s2.valid, token)
            &&& !is_listed(s2.tokens, token)
            &&& is_listed(s2.historically_valid, token)
            &&& is_listed(s2.historical_tokens, token)
            &&& s2.proposal_nonce == s.proposal_nonce + 2
            &&& again == Err::<(), Error>(Error::InvalidTokenAddress)
            &&& s3 == s2
            &&& readded is Ok
            &&& is_listed(s4.valid, token)
            &&& s4.proposal_nonce == s.proposal_nonce + 3
        }),
{
}

/// A configuration update by anyone but the governor has no effect; one by
/// the governor that offers nothing leaves the contract as it was, and
/// applying the same update twice is the same as applying it once.
pub proof fn lemma_config_update(
    s: WrapperView,
    caller: AccountId,
    governor: Option<AccountId>,
    is_native_allowed: Option<bool>,
    wrapping_limit: Option<u128>,
    fee_percentage: Option<Balance>,
    fee_recipient: Option<AccountId>,
)
    ensures
        caller != s.governor ==> s.config_result(
            caller,
            governor,
            is_native_allowed,
            wrapping_limit,
            fee_percentage,
            fee_recipient,
        ) == s,
        ({
            let once = s.config_result(
                s.governor,
                governor,
                is_native_allowed,
                wrapping_limit,
                fee_percentage,
                fee_recipient,
            );
            let twice = WrapperView {
                governor: updated(once.governor, governor),
                is_native_allowed: updated(once.is_native_allowed, is_native_allowed),
                wrapping_limit: updated(once.wrapping_limit, wrapping_limit),
                fee_percentage: updated(once.fee_percentage, fee_percentage),
                fee_recipient: updated(once.fee_recipient, fee_recipient),
                ..once
            };
            &&& twice == once
            &&& (governor is None && is_native_allowed is None && wrapping_limit is None
                && fee_percentage is None && fee_recipient is None) ==> once == s
        }),
{
}

/// Wrapping and unwrapping change nothing but the ledger: the metadata,
/// governor, fee settings, wrapping limit, nonce and token lists stay as
/// they were.
pub proof fn lemma_wraps_touch_only_the_ledger(
    s: WrapperView,
    env: CallEnv,
    answers: Seq<bool>,
    k: int,
    token_address: Option<AccountId>,
    sender: AccountId,
    beneficiary: AccountId,
    amount: Balance,
)
    ensures
        s.wrap_result(env, answers, k, token_address, sender, beneficiary, amount).state.with_ledger(
            s.ledger,
        ) == s,
        s.unwrap_result(env, answers, k, token_address, sender, beneficiary, amount).state.with_ledger(
            s.ledger,
        ) == s,
{
}

/// A message whose result is an error ends reverted whatever the chain did
/// with its native transfer, and one that succeeds is kept once the chain
/// makes the transfer.
pub proof fn lemma_errors_revert(
    result: Result<(), Error>,
    transfer: Option<NativeTransfer>,
    delivered: bool,
)
    ensures
        result is Err ==> spec_conclude(result, transfer, delivered) == Outcome::Reverted(
            result->Err_0,
        ),
        result is Ok && delivered ==> spec_conclude(result, transfer, delivered) == Outcome::Kept,
{
}

/// A transfer leaves the supply as it is and, between two distinct accounts,
/// moves exactly the amount: the sender's balance falls by it, the
/// recipient's rises by it, and no other balance changes.
pub proof fn lemma_transfer_conserves(
    l: LedgerView,
    from: AccountId,
    to: AccountId,
    amount: Balance,
    admitted: bool,
    other: AccountId,
)
    requires
        !l.transfer_overflows(from, to, amount),
    ensures
        l.transfer_result(from, to, amount, admitted).1.supply == l.supply,
        l.transfer_result(from, to, amount, admitted).0 is Ok && from != to ==> {
            let after = l.transfer_result(from, to, amount, admitted).1;
            &&& after.balance(from) == l.balance(from) - amount
            &&& after.balance(to) == l.balance(to) + amount
            &&& (other != from && other != to ==> after.balance(other) == l.balance(other))
        },
{
}

/// Moving an amount from one account to another and straight back restores
/// every balance.
pub proof fn lemma_transfer_round_trip(
    l: LedgerView,
    a: AccountId,
    b: AccountId,
    amount: Balance,
    other: AccountId,
)
    requires
        l.transfer_result(a, b, amount, true).0 is Ok,
        !l.transfer_overflows(a, b, amount),
    ensures
        ({
            let there = l.transfer_result(a, b, amount, true);
            let back = there.1.transfer_result(b, a, amount, true);
            &&& back.0 is Ok
            &&& back.1.balance(other) == l.balance(other)
            &&& back.1.supply == l.supply
        }),
{
}

/// Burning what was just minted for a non-zero account restores every
/// balance and the supply.
pub proof fn lemma_mint_then_burn(l: LedgerView, account: AccountId, amount: Balance, other: AccountId)
    requires
        !spec_is_zero(account),
        !l.mint_overflows(account, amount),
    ensures
        ({
            let minted = l.mint_result(account, amount);
            let burnt = minted.1.burn_result(account, amount);
            &&& minted.0 is Ok
            &&& burnt.0 is Ok
            &&& burnt.1.balance(other) == l.balance(other)
            &&& burnt.1.supply == l.supply
        }),
{
}

/// Spending an allowance: a successful `transfer_from` lowers the owner's
/// allowance to the spender by exactly the amount moved.
pub proof fn lemma_transfer_from_spends_allowance(
    l: LedgerView,
    spender: AccountId,
    from: AccountId,
    to: AccountId,
    amount: Balance,
    admitted: bool,
)
    requires
        l.transfer_from_result(spender, from, to, amount, admitted).0 is Ok,
    ensures
        l.transfer_from_result(spender, from, to, amount, admitted).1.allowance(from, spender)
            == l.allowance(from, spender) - amount,
{
}

/// Whatever allowance is written for an owner and a spender is what is
/// read back for them; other pairs keep theirs.
pub proof fn lemma_allowance_read_after_write(
    l: LedgerView,
    owner: AccountId,
    spender: AccountId,
    amount: Balance,
    other_owner: AccountId,
    other_spender: AccountId,
)
    ensures
        l.approved(owner, spender, amount).allowance(owner, spender) == amount,
        (other_owner != owner || other_spender != spender) ==> l.approved(
            owner,
            spender,
            amount,
        ).allowance(other_owner, other_spender) == l.allowance(other_owner, other_spender),
{
}

/// At the ledger level, a transfer that the recipient's hook refuses has
/// already debited the sender and credits no one; a message that makes such
/// a transfer fails, and its changes are not kept.
pub proof fn lemma_refused_transfer_debits_sender(
    l: LedgerView,
    from: AccountId,
    to: AccountId,
    amount: Balance,
    other: AccountId,
)
    requires
        !spec_is_zero(from),
        !spec_is_zero(to),
        amount <= l.balance(from),
    ensures
        ({
            let (r, after) = l.transfer_result(from, to, amount, false);
            &&& r == Err::<(), Psp22Error>(Psp22Error::SafeTransferCheckFailed)
            &&& after.balance(from) == l.balance(from) - amount
            &&& after.supply == l.supply
            &&& other != from ==> after.balance(other) == l.balance(other)
        }),
{
}

/// A token-list proposal: who makes it, for which token, under which nonce.
pub enum Proposal {
    Add { caller: AccountId, token: AccountId, nonce: u64 },
    Remove { caller: AccountId, token: AccountId, nonce: u64 },
}

/// The outcome of one proposal.
pub open spec fn apply_proposal(s: WrapperView, p: Proposal) -> (Result<(), Error>, WrapperView) {
    match p {
        Proposal::Add { caller, token, nonce } => s.add_token_result(caller, token, nonce),
        Proposal::Remove { caller, token, nonce } => s.remove_token_result(caller, token, nonce),
    }
}

/// The state after the proposals `ps`, in order, and how many of them succeeded.
pub open spec fn run_proposals(s: WrapperView, ps: Seq<Proposal>) -> (WrapperView, nat)
    decreases ps.len(),
{
    if ps.len() == 0 {
        (s, 0)
    } else {
        let (before, successes) = run_proposals(s, ps.drop_last());
        let (r, after) = apply_proposal(before, ps.last());
        (after, if r is Ok { successes + 1 } else { successes })
    }
}

/// Over any sequence of token-list proposals, by any callers: the nonce ends
/// up raised by exactly the number that succeeded (each success raises it by
/// one, each failure leaves it), it never falls, the ledger is untouched,
/// and every token that was historically valid stays so.
pub proof fn lemma_proposal_sequence(s: WrapperView, ps: Seq<Proposal>, t: AccountId)
    ensures
        run_proposals(s, ps).0.proposal_nonce == s.proposal_nonce + run_proposals(s, ps).1,
        run_proposals(s, ps).0.proposal_nonce >= s.proposal_nonce,
        run_proposals(s, ps).0.ledger == s.ledger,
        is_listed(s.historically_valid, t) ==> is_listed(run_proposals(s, ps).0.historically_valid, t),
    decreases ps.len(),
{
    if ps.len() > 0 {
        lemma_proposal_sequence(s, ps.drop_last(), t);
    }
}

/// Removal stops wrapping into a token but never unwrapping into it: once
/// the governor has added a token, after any later proposals the unwrapping
/// check accepts that token for any amount the contract holds (for an
/// amount within its own wrapped balance).
pub proof fn lemma_added_token_stays_unwrappable(
    s: WrapperView,
    caller: AccountId,
    t: AccountId,
    nonce: u64,
    later: Seq<Proposal>,
    env: CallEnv,
    amount: Balance,
)
    requires
        s.add_token_result(caller, t, nonce).0 is Ok,
        amount <= s.ledger.balance(env.account_id),
    ensures
        run_proposals(s.add_token_result(caller, t, nonce).1, later).0.unwrapping_check(
            env,
            Some(t),
            amount,
        ) is Ok,
{
    lemma_proposal_sequence(s.add_token_result(caller, t, nonce).1, later, t);
}

/// `x` when `b` holds, else nothing.
pub open spec fn when(b: bool, x: int) -> int {
    if b {
        x
    } else {
        0
    }
}

/// Two maps record the same thing for `key`: both nothing, or the same value.
pub open spec fn agree_at<V>(m1: Map<AccountId, V>, m2: Map<AccountId, V>, key: AccountId) -> bool {
    &&& m1.contains_key(key) == m2.contains_key(key)
    &&& m1.contains_key(key) ==> m1[key] == m2[key]
}

/// A successful PSP22 wrap, whoever the sender, the contract, the fee
/// recipient and a non-zero beneficiary are (some may coincide, as in
/// `wrap`, where the caller is both sender and beneficiary): the supply rises
/// by the leftover, and each account's balance changes by what it gives and
/// receives: the sender gives the leftover and the fee, the contract
/// receives the leftover, the fee recipient the fee, and the beneficiary
/// the newly minted leftover. The caller's allowance from the sender shrinks
/// by the leftover and the fee; every other allowance stays as it was.
pub proof fn lemma_psp22_wrap_balances(
    s: WrapperView,
    env: CallEnv,
    answers: Seq<bool>,
    k: int,
    token: AccountId,
    sender: AccountId,
    mint_for: AccountId,
    amount: Balance,
    a: AccountId,
    sp: AccountId,
)
    requires
        !s.wrap_overflows(env, answers, k, Some(token), sender, mint_for, amount),
        s.wrap_result(env, answers, k, Some(token), sender, mint_for, amount).result is Ok,
        !spec_is_zero(mint_for),
    ensures
        ({
            let after = s.wrap_result(env, answers, k, Some(token), sender, mint_for, amount).state;
            let cost = s.fee_from_amount(amount) as int;
            let left = s.leftover(amount) as int;
            &&& after.ledger.supply == s.ledger.supply + left
            &&& after.ledger.balance(a) == s.ledger.balance(a) - when(a == sender, left + cost)
                + when(a == env.account_id, left) + when(a == s.fee_recipient, cost) + when(
                a == mint_for,
                left,
            )
            &&& after.ledger.allowance(sender, env.caller) == s.ledger.allowance(sender, env.caller)
                - left - cost
            &&& (a != sender ==> after.ledger.allowance(a, sp) == s.ledger.allowance(a, sp))
            &&& (sp != env.caller ==> after.ledger.allowance(a, sp) == s.ledger.allowance(a, sp))
        }),
{
}

/// A successful unwrap, whoever the holder, the recipient and the contract
/// are (in `unwrap` the caller is both holder and recipient): the supply
/// falls by the amount, the holder's balance loses the burnt amount, and
/// for a PSP22 unwrap the contract pays the amount to the recipient; a
/// native unwrap asks the chain to pay the amount to the recipient instead.
/// No allowance changes.
pub proof fn lemma_unwrap_balances(
    s: WrapperView,
    env: CallEnv,
    answers: Seq<bool>,
    k: int,
    token_address: Option<AccountId>,
    sender: AccountId,
    burn_for: AccountId,
    amount: Balance,
    a: AccountId,
    sp: AccountId,
)
    requires
        !s.unwrap_overflows(env, token_address, sender, burn_for, amount),
        s.unwrap_result(env, answers, k, token_address, sender, burn_for, amount).result is Ok,
    ensures
        ({
            let m = s.unwrap_result(env, answers, k, token_address, sender, burn_for, amount);
            &&& m.state.ledger.supply == s.ledger.supply - amount
            &&& m.state.ledger.balance(a) == s.ledger.balance(a) - when(a == burn_for, amount as int)
                + when(token_address is Some && a == sender, amount as int) - when(
                token_address is Some && a == env.account_id,
                amount as int,
            )
            &&& token_address is None ==> m.result == Ok::<Option<NativeTransfer>, Error>(
                Some(NativeTransfer { to: sender, amount, on_refusal: Refusal::Trap }),
            )
            &&& token_address is Some ==> m.result == Ok::<Option<NativeTransfer>, Error>(None)
            &&& m.state.ledger.allowance(a, sp) == s.ledger.allowance(a, sp)
        }),
{
}

/// A token-list proposal touches only its own token: for every other token,
/// each of the four lists records what it recorded before; the ledger and
/// the settings other than the nonce stay as they were. A successful
/// addition lists the token in all four lists; a successful removal de-lists
/// it from the current lists and keeps the historical ones.
pub proof fn lemma_proposals_touch_only_their_token(
    s: WrapperView,
    caller: AccountId,
    token: AccountId,
    nonce: u64,
    t: AccountId,
)
    ensures
        ({
            let (r, after) = s.add_token_result(caller, token, nonce);
            &&& t != token ==> {
                &&& agree_at(after.valid, s.valid, t)
                &&& agree_at(after.tokens, s.tokens, t)
                &&& agree_at(after.historically_valid, s.historically_valid, t)
                &&& agree_at(after.historical_tokens, s.historical_tokens, t)
            }
            &&& after.ledger == s.ledger
            &&& after.governor == s.governor
            &&& after.fee_recipient == s.fee_recipient
            &&& after.fee_percentage == s.fee_percentage
            &&& after.is_native_allowed == s.is_native_allowed
            &&& after.wrapping_limit == s.wrapping_limit
            &&& r is Ok ==> {
                &&& is_listed(after.valid, token)
                &&& is_listed(after.tokens, token)
                &&& is_listed(after.historically_valid, token)
                &&& is_listed(after.historical_tokens, token)
            }
        }),
        ({
            let (r, after) = s.remove_token_result(caller, token, nonce);
            &&& t != token ==> {
                &&& agree_at(after.valid, s.valid, t)
                &&& agree_at(after.tokens, s.tokens, t)
            }
            &&& after.historically_valid == s.historically_valid
            &&& after.historical_tokens == s.historical_tokens
            &&& after.ledger == s.ledger
            &&& after.governor == s.governor
            &&& after.fee_recipient == s.fee_recipient
            &&& after.fee_percentage == s.fee_percentage
            &&& after.is_native_allowed == s.is_native_allowed
            &&& after.wrapping_limit == s.wrapping_limit
            &&& r is Ok ==> !is_listed(after.valid, token) && !is_listed(after.tokens, token)
        }),
{
}

/// Each setting of a configuration update is decided on its own: a setting
/// the update does not offer keeps its value, whatever else is offered; a
/// setting the governor offers takes the offered value; the ledger, the
/// nonce and the token lists are untouched.
pub proof fn lemma_config_settings_independent(
    s: WrapperView,
    caller: AccountId,
    governor: Option<AccountId>,
    is_native_allowed: Option<bool>,
    wrapping_limit: Option<u128>,
    fee_percentage: Option<Balance>,
    fee_recipient: Option<AccountId>,
)
    ensures
        ({
            let r = s.config_result(
                caller,
                governor,
                is_native_allowed,
                wrapping_limit,
                fee_percentage,
                fee_recipient,
            );
            &&& governor is None ==> r.governor == s.governor
            &&& is_native_allowed is None ==> r.is_native_allowed == s.is_native_allowed
            &&& wrapping_limit is None ==> r.wrapping_limit == s.wrapping_limit
            &&& fee_percentage is None ==> r.fee_percentage == s.fee_percentage
            &&& fee_recipient is None ==> r.fee_recipient == s.fee_recipient
            &&& caller == s.governor ==> {
                &&& (governor matches Some(g) ==> r.governor == g)
                &&& (is_native_allowed matches Some(n) ==> r.is_native_allowed == n)
                &&& (wrapping_limit matches Some(l) ==> r.wrapping_limit == l)
                &&& (fee_percentage matches Some(f) ==> r.fee_percentage == f)
                &&& (fee_recipient matches Some(f) ==> r.fee_recipient == f)
            }
            &&& r.ledger == s.ledger
            &&& r.proposal_nonce == s.proposal_nonce
            &&& r.valid == s.valid
            &&& r.tokens == s.tokens
            &&& r.historically_valid == s.historically_valid
            &&& r.historical_tokens == s.historical_tokens
        }),
{
}

} // verus!
