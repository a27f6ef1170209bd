use vstd::prelude::*;

use crate::account::{is_zero, spec_is_zero, AccountId, AllowanceKey, TableKey};
use crate::table::{entries_map, Table};

verus! {

/// An amount of tokens.
pub type Balance = u128;

/// Why the PSP22 ledger refused an operation.
#[derive(Clone, Copy, Debug, PartialEq, Eq, Structural)]
pub enum Psp22Error {
    /// The sender holds less than the amount.
    InsufficientBalance,
    /// The spender is allowed less than the amount.
    InsufficientAllowance,
    /// The recipient (or the spender of an approval, or the account burnt
    /// from) is the zero account.
    ZeroRecipientAddress,
    /// The sender (or the owner of an approval) is the zero account.
    ZeroSenderAddress,
    /// The recipient's `before_received` hook refused the transfer.
    SafeTransferCheckFailed,
}

/// A question put to a recipient's `before_received` hook before it is
/// credited: `operator` (the account that called the ledger) moves `value`
/// of `from`'s tokens to `to`.
#[derive(Clone, Copy, Debug, PartialEq, Eq)]
pub struct HookQuestion {
    pub operator: AccountId,
    pub from: AccountId,
    pub to: AccountId,
    pub value: Balance,
}

/// The answer that the hook asked in position `k` gives: the `k`-th listed
/// answer, or acceptance when fewer answers are listed.
pub open spec fn answer_at(answers: Seq<bool>, k: int) -> bool {
    if 0 <= k < answers.len() {
        answers[k]
    } else {
        true
    }
}

/// The recipients' `before_received` hooks during one message: the answers
/// they give, in the order in which they are asked, and the questions asked
/// so far. A hook asked beyond the listed answers accepts (an account that
/// is no contract accepts).
pub struct ReceiverHooks {
    answers: Vec<bool>,
    asked: Vec<HookQuestion>,
}

impl ReceiverHooks {
    /// The listed answers.
    pub closed spec fn answers(&self) -> Seq<bool> {
        self.answers@
    }

    /// The questions asked so far, in order.
    pub closed spec fn asked(&self) -> Seq<HookQuestion> {
        self.asked@
    }

    /// The answer the next hook asked gives.
    pub open spec fn next_answer(&self) -> bool {
        answer_at(self.answers(), self.asked().len() as int)
    }

    /// Hooks that give `answers` in order, none asked yet.
    pub fn new(answers: Vec<bool>) -> (h: Self)
        ensures
            h.answers() == answers@,
            h.asked() == Seq::<HookQuestion>::empty(),
    {
        ReceiverHooks { answers, asked: Vec::new() }
    }

    /// Hooks that accept every transfer.
    pub fn accept_all() -> (h: Self)
        ensures
            h.answers() == Seq::<bool>::empty(),
            h.asked() == Seq::<HookQuestion>::empty(),
    {
        ReceiverHooks { answers: Vec::new(), asked: Vec::new() }
    }

    /// Puts `question` to the next hook and returns its answer.
    pub fn ask(&mut self, question: HookQuestion) -> (r: bool)
        ensures
            r == old(self).next_answer(),
            final(self).answers() == old(self).answers(),
            final(self).asked() == old(self).asked().push(question),
    {
        let k = self.asked.len();
        let r = if k < self.answers.len() {
            self.answers[k]
        } else {
            true
        };
        self.asked.push(question);
        r
    }

    /// The questions asked so far, in order.
    pub fn questions(&self) -> (r: Vec<HookQuestion>)
        ensures
            r@ == self.asked(),
    {
        let n = self.asked.len();
        let mut r: Vec<HookQuestion> = Vec::new();
        let mut i: usize = 0;
        while i < n
            invariant
                n == self.asked@.len(),
                i <= n,
                r@ == self.asked@.subrange(0, i as int),
            decreases n - i,
        {
            r.push(self.asked[i]);
            i = i + 1;
        }
        assert(r@ == self.asked@);
        r
    }

    /// The same hooks, with the same answers and questions.
    pub fn duplicate(&self) -> (h: Self)
        ensures
            h.answers() == self.answers(),
            h.asked() == self.asked(),
    {
        let n = self.answers.len();
        let mut answers: Vec<bool> = Vec::new();
        let mut i: usize = 0;
        while i < n
            invariant
                n == self.answers@.len(),
                i <= n,
                answers@ == self.answers@.subrange(0, i as int),
            decreases n - i,
        {
            answers.push(self.answers[i]);
            i = i + 1;
        }
        assert(answers@ == self.answers@);
        ReceiverHooks { answers, asked: self.questions() }
    }

    /// How many answers are listed.
    pub fn answer_count(&self) -> (r: usize)
        ensures
            r == self.answers().len(),
    {
        self.answers.len()
    }
}

/// The balance that `balances` records for `account`; an account never written holds nothing.
pub open spec fn balance_in(balances: Map<AccountId, Balance>, account: AccountId) -> Balance {
    if balances.contains_key(account) {
        balances[account]
    } else {
        0
    }
}

/// What the PSP22 ledger holds: the total supply, the balances and the allowances.
pub struct LedgerView {
    pub supply: Balance,
    pub balances: Map<AccountId, Balance>,
    pub allowances: Map<AllowanceKey, Balance>,
}

impl LedgerView {
    pub open spec fn balance(self, account: AccountId) -> Balance {
        balance_in(self.balances, account)
    }

    pub open spec fn allowance(self, owner: AccountId, spender: AccountId) -> Balance {
        let key = AllowanceKey { owner, spender };
        if self.allowances.contains_key(key) {
            self.allowances[key]
        } else {
            0
        }
    }

    /// The ledger after `amount` new tokens are credited to `account`.
    pub open spec fn minted(self, account: AccountId, amount: Balance) -> LedgerView {
        LedgerView {
            supply: (self.supply + amount) as Balance,
            balances: self.balances.insert(account, (self.balance(account) + amount) as Balance),
            allowances: self.allowances,
        }
    }

    /// The ledger after `amount` tokens of `account` are destroyed.
    pub open spec fn burnt(self, account: AccountId, amount: Balance) -> LedgerView {
        LedgerView {
            supply: (self.supply - amount) as Balance,
            balances: self.balances.insert(account, (self.balance(account) - amount) as Balance),
            allowances: self.allowances,
        }
    }

    /// The ledger after `amount` tokens are taken from `from`'s balance.
    pub open spec fn debited(self, from: AccountId, amount: Balance) -> LedgerView {
        LedgerView {
            supply: self.supply,
            balances: self.balances.insert(from, (self.balance(from) - amount) as Balance),
            allowances: self.allowances,
        }
    }

    /// The ledger after `amount` tokens move from `from` to `to`: `from` is
    /// debited first, then `to` is credited.
    pub open spec fn moved(self, from: AccountId, to: AccountId, amount: Balance) -> LedgerView {
        let debited = self.debited(from, amount);
        LedgerView {
            supply: self.supply,
            balances: debited.balances.insert(to, (debited.balance(to) + amount) as Balance),
            allowances: self.allowances,
        }
    }

    /// The ledger after `spender` is allowed to move `amount` of `owner`'s tokens.
    pub open spec fn approved(self, owner: AccountId, spender: AccountId, amount: Balance) -> LedgerView {
        LedgerView {
            supply: self.supply,
            balances: self.balances,
            allowances: self.allowances.insert(AllowanceKey { owner, spender }, amount),
        }
    }

    /// The ledger after the balance of `account` is overwritten with `amount`.
    pub open spec fn with_balance(self, account: AccountId, amount: Balance) -> LedgerView {
        LedgerView {
            supply: self.supply,
            balances: self.balances.insert(account, amount),
            allowances: self.allowances,
        }
    }

    /// Whether a transfer of `amount` from `from` to `to` gets as far as crediting
    /// `to`, and the credit would not fit in a balance.
    pub open spec fn transfer_overflows(self, from: AccountId, to: AccountId, amount: Balance) -> bool {
        &&& !spec_is_zero(from)
        &&& !spec_is_zero(to)
        &&& amount <= self.balance(from)
        &&& from != to
        &&& self.balance(to) + amount > Balance::MAX
    }

    /// Whether moving `amount` from `from` to `to` gets as far as asking the
    /// recipient's hook.
    pub open spec fn transfer_reaches_hook(self, from: AccountId, to: AccountId, amount: Balance) -> bool {
        !spec_is_zero(from) && !spec_is_zero(to) && amount <= self.balance(from)
    }

    /// The questions that moving `amount` from `from` to `to` for `operator`
    /// puts to hooks: one, once the transfer gets that far.
    pub open spec fn transfer_questions(
        self,
        operator: AccountId,
        from: AccountId,
        to: AccountId,
        amount: Balance,
    ) -> Seq<HookQuestion> {
        if self.transfer_reaches_hook(from, to, amount) {
            seq![HookQuestion { operator, from, to, value: amount }]
        } else {
            Seq::empty()
        }
    }

    /// The questions that `spender` moving `amount` of `from`'s tokens to
    /// `to` puts to hooks.
    pub open spec fn transfer_from_questions(
        self,
        spender: AccountId,
        from: AccountId,
        to: AccountId,
        amount: Balance,
    ) -> Seq<HookQuestion> {
        let (approved, after) = self.approve_result(
            from,
            spender,
            (self.allowance(from, spender) - amount) as Balance,
        );
        if amount <= self.allowance(from, spender) && approved is Ok {
            after.transfer_questions(spender, from, to, amount)
        } else {
            Seq::empty()
        }
    }

    /// Whether `spender` moving `amount` of `from`'s tokens to `to` gets past
    /// the allowance and its update and then overflows the credit to `to`.
    pub open spec fn transfer_from_overflows(
        self,
        spender: AccountId,
        from: AccountId,
        to: AccountId,
        amount: Balance,
    ) -> bool {
        &&& amount <= self.allowance(from, spender)
        &&& !spec_is_zero(from)
        &&& !spec_is_zero(spender)
        &&& self.transfer_overflows(from, to, amount)
    }

    /// The outcome of moving `amount` from `from` to `to`, where `admitted`
    /// is the answer of the recipient's hook. The hook is asked once `from`
    /// has been debited, and a refusal leaves it debited.
    pub open spec fn transfer_result(
        self,
        from: AccountId,
        to: AccountId,
        amount: Balance,
        admitted: bool,
    ) -> (Result<(), Psp22Error>, LedgerView) {
        if spec_is_zero(from) {
            (Err(Psp22Error::ZeroSenderAddress), self)
        } else if spec_is_zero(to) {
            (Err(Psp22Error::ZeroRecipientAddress), self)
        } else if self.balance(from) < amount {
            (Err(Psp22Error::InsufficientBalance), self)
        } else if !admitted {
            (Err(Psp22Error::SafeTransferCheckFailed), self.debited(from, amount))
        } else {
            (Ok(()), self.moved(from, to, amount))
        }
    }

    /// The outcome of setting the allowance of `spender` over `owner`'s tokens.
    pub open spec fn approve_result(self, owner: AccountId, spender: AccountId, amount: Balance) -> (
        Result<(), Psp22Error>,
        LedgerView,
    ) {
        if spec_is_zero(owner) {
            (Err(Psp22Error::ZeroSenderAddress), self)
        } else if spec_is_zero(spender) {
            (Err(Psp22Error::ZeroRecipientAddress), self)
        } else {
            (Ok(()), self.approved(owner, spender, amount))
        }
    }

    /// The outcome of `spender` moving `amount` of `from`'s tokens to `to`:
    /// the allowance is checked and lowered by the amount, then the tokens move.
    pub open spec fn transfer_from_result(
        self,
        spender: AccountId,
        from: AccountId,
        to: AccountId,
        amount: Balance,
        admitted: bool,
    ) -> (Result<(), Psp22Error>, LedgerView) {
        let allowed = self.allowance(from, spender);
        if allowed < amount {
            (Err(Psp22Error::InsufficientAllowance), self)
        } else {
            let (approved, after) = self.approve_result(from, spender, (allowed - amount) as Balance);
            if approved is Err {
                (approved, after)
            } else {
                after.transfer_result(from, to, amount, admitted)
            }
        }
    }

    /// The outcome of crediting `amount` new tokens to `account`.
    pub open spec fn mint_result(self, account: AccountId, amount: Balance) -> (
        Result<(), Psp22Error>,
        LedgerView,
    ) {
        if spec_is_zero(account) {
            (Err(Psp22Error::ZeroRecipientAddress), self)
        } else {
            (Ok(()), self.minted(account, amount))
        }
    }

    /// Whether minting `amount` for `account` gets as far as crediting it and
    /// the credit would not fit in the balance or the supply.
    pub open spec fn mint_overflows(self, account: AccountId, amount: Balance) -> bool {
        !spec_is_zero(account) && (self.balance(account) + amount > Balance::MAX || self.supply
            + amount > Balance::MAX)
    }

    /// The outcome of destroying `amount` tokens of `account`.
    pub open spec fn burn_result(self, account: AccountId, amount: Balance) -> (
        Result<(), Psp22Error>,
        LedgerView,
    ) {
        if spec_is_zero(account) {
            (Err(Psp22Error::ZeroRecipientAddress), self)
        } else if self.balance(account) < amount {
            (Err(Psp22Error::InsufficientBalance), self)
        } else {
            (Ok(()), self.burnt(account, amount))
        }
    }

    /// Whether burning `amount` of `account`'s tokens gets as far as lowering
    /// the supply and the supply is smaller than the amount.
    pub open spec fn burn_underflows(self, account: AccountId, amount: Balance) -> bool {
        !spec_is_zero(account) && amount <= self.balance(account) && self.supply < amount
    }
}

/// The PSP22 ledger of the wrapped token.
pub struct Psp22Data {
    supply: Balance,
    balances: Table<AccountId, Balance>,
    allowances: Table<AllowanceKey, Balance>,
}

impl View for Psp22Data {
    type V = LedgerView;

    closed spec fn view(&self) -> LedgerView {
        LedgerView { supply: self.supply, balances: self.balances@, allowances: self.allowances@ }
    }
}

impl Psp22Data {
    pub closed spec fn wf(&self) -> bool {
        self.balances.wf() && self.allowances.wf()
    }

    /// An empty ledger.
    pub fn new() -> (d: Self)
        ensures
            d.wf(),
            d@ == (LedgerView {
                supply: 0,
                balances: Map::empty(),
                allowances: Map::empty(),
            }),
    {
        Psp22Data { supply: 0, balances: Table::new(), allowances: Table::new() }
    }

    /// The ledger with the given supply that writing the given balances and
    /// allowances in order produces.
    pub fn from_entries(
        supply: Balance,
        balances: &Vec<(AccountId, Balance)>,
        allowances: &Vec<(AllowanceKey, Balance)>,
    ) -> (d: Self)
        ensures
            d.wf(),
            d@ == (LedgerView {
                supply,
                balances: entries_map(balances@),
                allowances: entries_map(allowances@),
            }),
    {
        Psp22Data {
            supply,
            balances: Table::from_entries(balances),
            allowances: Table::from_entries(allowances),
        }
    }

    /// The recorded balances, each account once.
    pub fn balance_entries(&self) -> (r: Vec<(AccountId, Balance)>)
        requires
            self.wf(),
        ensures
            entries_map(r@) == self@.balances,
            forall|i: int, j: int| 0 <= i < j < r@.len() ==> #[trigger] r@[i].0 != #[trigger] r@[j].0,
    {
        self.balances.entries()
    }

    /// The recorded allowances, each owner and spender once.
    pub fn allowance_entries(&self) -> (r: Vec<(AllowanceKey, Balance)>)
        requires
            self.wf(),
        ensures
            entries_map(r@) == self@.allowances,
            forall|i: int, j: int| 0 <= i < j < r@.len() ==> #[trigger] r@[i].0 != #[trigger] r@[j].0,
    {
        self.allowances.entries()
    }

    /// The total supply.
    pub fn total_supply(&self) -> (r: Balance)
        ensures
            r == self@.supply,
    {
        self.supply
    }

    /// The balance of `owner`.
    pub fn balance_of(&self, owner: &AccountId) -> (r: Balance)
        requires
            self.wf(),
        ensures
            r == self@.balance(*owner),
    {
        match self.balances.get(owner) {
            Some(b) => b,
            None => 0,
        }
    }

    /// How much of `owner`'s tokens `spender` may move.
    pub fn allowance(&self, owner: &AccountId, spender: &AccountId) -> (r: Balance)
        requires
            self.wf(),
        ensures
            r == self@.allowance(*owner, *spender),
    {
        match self.allowances.get(&AllowanceKey { owner: *owner, spender: *spender }) {
            Some(a) => a,
            None => 0,
        }
    }

    /// Sets the total supply to `supply`.
    pub fn set_supply(&mut self, supply: Balance)
        requires
            old(self).wf(),
        ensures
            final(self).wf(),
            final(self)@ == (LedgerView { supply, ..old(self)@ }),
    {
        self.supply = supply;
    }

    /// Overwrites the balance of `account` with `amount`, supply untouched.
    pub fn set_balance(&mut self, account: AccountId, amount: Balance)
        requires
            old(self).wf(),
        ensures
            final(self).wf(),
            final(self)@ == old(self)@.with_balance(account, amount),
    {
        self.balances.insert(account, amount);
    }

    /// Overwrites the allowance of `spender` over `owner`'s tokens with `amount`.
    pub fn set_allowance(&mut self, owner: AccountId, spender: AccountId, amount: Balance)
        requires
            old(self).wf(),
        ensures
            final(self).wf(),
            final(self)@ == old(self)@.approved(owner, spender, amount),
    {
        self.allowances.insert(AllowanceKey { owner, spender }, amount);
    }

    /// A second ledger with the same contents.
    pub fn duplicate(&self) -> (d: Self)
        requires
            self.wf(),
        ensures
            d.wf(),
            d@ == self@,
    {
        Psp22Data {
            supply: self.supply,
            balances: self.balances.duplicate(),
            allowances: self.allowances.duplicate(),
        }
    }

    /// Whether minting `amount` for `account` stays within the balance and supply bounds.
    pub fn mint_fits(&self, account: &AccountId, amount: Balance) -> (r: bool)
        requires
            self.wf(),
        ensures
            r == !self@.mint_overflows(*account, amount),
    {
        if is_zero(account) {
            return true;
        }
        let balance = self.balance_of(account);
        balance <= Balance::MAX - amount && self.supply <= Balance::MAX - amount
    }

    /// Whether burning `amount` of `account`'s tokens stays within the supply.
    pub fn burn_fits(&self, account: &AccountId, amount: Balance) -> (r: bool)
        requires
            self.wf(),
        ensures
            r == !self@.burn_underflows(*account, amount),
    {
        is_zero(account) || self.balance_of(account) < amount || amount <= self.supply
    }

    /// Whether moving `amount` from `from` to `to` stays within the balance bound.
    pub fn transfer_fits(&self, from: &AccountId, to: &AccountId, amount: Balance) -> (r: bool)
        requires
            self.wf(),
        ensures
            r == !self@.transfer_overflows(*from, *to, amount),
    {
        if is_zero(from) || is_zero(to) || self.balance_of(from) < amount || from.same_key(to) {
            return true;
        }
        self.balance_of(to) <= Balance::MAX - amount
    }

    /// Whether `spender` moving `amount` of `from`'s tokens to `to` stays within the balance bound.
    pub fn transfer_from_fits(&self, spender: &AccountId, from: &AccountId, to: &AccountId, amount: Balance) -> (r: bool)
        requires
            self.wf(),
        ensures
            r == !self@.transfer_from_overflows(*spender, *from, *to, amount),
    {
        self.allowance(from, spender) < amount || is_zero(from) || is_zero(spender)
            || self.transfer_fits(from, to, amount)
    }

    /// Credits `amount` new tokens to `account`.
    pub fn mint(&mut self, account: AccountId, amount: Balance) -> (r: Result<(), Psp22Error>)
        requires
            old(self).wf(),
            !old(self)@.mint_overflows(account, amount),
        ensures
            final(self).wf(),
            (r, final(self)@) == old(self)@.mint_result(account, amount),
    {
        if is_zero(&account) {
            return Err(Psp22Error::ZeroRecipientAddress);
        }
        let balance = self.balance_of(&account);
        self.balances.insert(account, balance + amount);
        self.supply = self.supply + amount;
        Ok(())
    }

    /// Destroys `amount` of `account`'s tokens.
    pub fn burn_from(&mut self, account: AccountId, amount: Balance) -> (r: Result<(), Psp22Error>)
        requires
            old(self).wf(),
            !old(self)@.burn_underflows(account, amount),
        ensures
            final(self).wf(),
            (r, final(self)@) == old(self)@.burn_result(account, amount),
    {
        if is_zero(&account) {
            return Err(Psp22Error::ZeroRecipientAddress);
        }
        let balance = self.balance_of(&account);
        if balance < amount {
            return Err(Psp22Error::InsufficientBalance);
        }
        self.balances.insert(account, balance - amount);
        self.supply = self.supply - amount;
        Ok(())
    }

    /// `operator` moves `amount` tokens from `from` to `to`: debits `from`,
    /// asks the recipient's hook, then credits `to`.
    pub fn transfer_from_to(
        &mut self,
        operator: AccountId,
        from: AccountId,
        to: AccountId,
        amount: Balance,
        hooks: &mut ReceiverHooks,
    ) -> (r: Result<(), Psp22Error>)
        requires
            old(self).wf(),
            !old(self)@.transfer_overflows(from, to, amount),
        ensures
            final(self).wf(),
            (r, final(self)@) == old(self)@.transfer_result(from, to, amount, old(hooks).next_answer()),
            final(hooks).answers() == old(hooks).answers(),
            final(hooks).asked() == old(hooks).asked() + old(self)@.transfer_questions(
                operator,
                from,
                to,
                amount,
            ),
    {
        if is_zero(&from) {
            return Err(Psp22Error::ZeroSenderAddress);
        }
        if is_zero(&to) {
            return Err(Psp22Error::ZeroRecipientAddress);
        }
        let from_balance = self.balance_of(&from);
        if from_balance < amount {
            return Err(Psp22Error::InsufficientBalance);
        }
        self.balances.insert(from, from_balance - amount);
        if !hooks.ask(HookQuestion { operator, from, to, value: amount }) {
            return Err(Psp22Error::SafeTransferCheckFailed);
        }
        let to_balance = self.balance_of(&to);
        self.balances.insert(to, to_balance + amount);
        Ok(())
    }

    /// Sets the allowance of `spender` over `owner`'s tokens, refusing the zero account.
    pub fn approve_from_to(&mut self, owner: AccountId, spender: AccountId, amount: Balance) -> (r:
        Result<(), Psp22Error>)
        requires
            old(self).wf(),
        ensures
            final(self).wf(),
            (r, final(self)@) == old(self)@.approve_result(owner, spender, amount),
    {
        if is_zero(&owner) {
            return Err(Psp22Error::ZeroSenderAddress);
        }
        if is_zero(&spender) {
            return Err(Psp22Error::ZeroRecipientAddress);
        }
        self.allowances.insert(AllowanceKey { owner, spender }, amount);
        Ok(())
    }

    /// `caller` sends `value` of its own tokens to `to`.
    pub fn transfer(&mut self, caller: AccountId, to: AccountId, value: Balance, hooks: &mut ReceiverHooks) -> (r:
        Result<(), Psp22Error>)
        requires
            old(self).wf(),
            !old(self)@.transfer_overflows(caller, to, value),
        ensures
            final(self).wf(),
            (r, final(self)@) == old(self)@.transfer_result(caller, to, value, old(hooks).next_answer()),
            final(hooks).answers() == old(hooks).answers(),
            final(hooks).asked() == old(hooks).asked() + old(self)@.transfer_questions(
                caller,
                caller,
                to,
                value,
            ),
    {
        self.transfer_from_to(caller, caller, to, value, hooks)
    }

    /// `caller` moves `value` of `from`'s tokens to `to`, spending its allowance.
    pub fn transfer_from(
        &mut self,
        caller: AccountId,
        from: AccountId,
        to: AccountId,
        value: Balance,
        hooks: &mut ReceiverHooks,
    ) -> (r: Result<(), Psp22Error>)
        requires
            old(self).wf(),
            !old(self)@.transfer_from_overflows(caller, from, to, value),
        ensures
            final(self).wf(),
            (r, final(self)@) == old(self)@.transfer_from_result(
                caller,
                from,
                to,
                value,
                old(hooks).next_answer(),
            ),
            final(hooks).answers() == old(hooks).answers(),
            final(hooks).asked() == old(hooks).asked() + old(self)@.transfer_from_questions(
                caller,
                from,
                to,
                value,
            ),
    {
        let allowance = self.allowance(&from, &caller);
        if allowance < value {
            assert(old(self)@.transfer_from_questions(caller, from, to, value) =~= Seq::empty());
            return Err(Psp22Error::InsufficientAllowance);
        }
        match self.approve_from_to(from, caller, allowance - value) {
            Ok(()) => {},
            Err(e) => {
                assert(old(self)@.transfer_from_questions(caller, from, to, value) =~= Seq::empty());
                return Err(e);
            },
        }
        self.transfer_from_to(caller, from, to, value, hooks)
    }

    /// `caller` lowers the allowance of `spender` over its tokens by `delta`,
    /// refusing to go below zero.
    pub fn decrease_allowance(&mut self, caller: AccountId, spender: AccountId, delta: Balance) -> (r:
        Result<(), Psp22Error>)
        requires
            old(self).wf(),
        ensures
            final(self).wf(),
            (r, final(self)@) == (if old(self)@.allowance(caller, spender) < delta {
                (Err(Psp22Error::InsufficientAllowance), old(self)@)
            } else {
                old(self)@.approve_result(
                    caller,
                    spender,
                    (old(self)@.allowance(caller, spender) - delta) as Balance,
                )
            }),
    {
        let current = self.allowance(&caller, &spender);
        if current < delta {
            return Err(Psp22Error::InsufficientAllowance);
        }
        self.approve_from_to(caller, spender, current - delta)
    }

    /// `caller` raises the allowance of `spender` over its tokens by `delta`.
    pub fn increase_allowance(&mut self, caller: AccountId, spender: AccountId, delta: Balance) -> (r:
        Result<(), Psp22Error>)
        requires
            old(self).wf(),
            old(self)@.allowance(caller, spender) + delta <= Balance::MAX,
        ensures
            final(self).wf(),
            (r, final(self)@) == old(self)@.approve_result(
                caller,
                spender,
                (old(self)@.allowance(caller, spender) + delta) as Balance,
            ),
    {
        let current = self.allowance(&caller, &spender);
        self.approve_from_to(caller, spender, current + delta)
    }
}

} // verus!
