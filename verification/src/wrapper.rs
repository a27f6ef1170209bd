use vstd::prelude::*;

use crate::account::{AccountId, AllowanceKey, TableKey};
use crate::psp22::{answer_at, Balance, HookQuestion, LedgerView, Psp22Data, Psp22Error, ReceiverHooks};
use crate::table::{entries_map, Table};

verus! {

/// The token wrapper's errors.
#[derive(Clone, Copy, Debug, PartialEq, Eq, Structural)]
pub enum Error {
    /// Invalid amount provided for native wrapping
    InvalidAmountForNativeWrapping,
    /// Native wrapping is not allowed for this token wrapper
    NativeWrappingNotAllowed,
    /// Invalid value sent for wrapping
    InvalidValueSentForWrapping,
    /// Invalid token address
    InvalidTokenAddress,
    /// Token Address already exists
    TokenAddressAlreadyExists,
    /// Invalid token amount
    InvalidTokenAmount,
    /// Insufficient native balance
    InsufficientNativeBalance,
    /// Native unwrapping is not allowed for this token wrapper
    NativeUnwrappingNotAllowed,
    /// Insufficient PSP22 balance
    InsufficientPSP22Balance,
    /// Invalid historical token address
    InvalidHistoricalTokenAddress,
    /// Unauthorized
    Unauthorize,
    /// Invalid Nonce
    InvalidNonce,
    /// Nonce must increment by 1
    NonceMustIncrementByOne,
    /// TransferError
    TransferError,
    /// PSP22 allowance error
    PSP22AllowanceError,
}

/// The event that `wrap_for` emits.
#[derive(Clone, Copy, Debug, PartialEq, Eq)]
pub struct Wrap {
    pub sender: Option<AccountId>,
    pub mint_for: Option<AccountId>,
    pub amount: Balance,
}

/// What the chain tells a message about the call it serves.
#[derive(Clone, Copy, Debug)]
pub struct CallEnv {
    /// The account that called the message.
    pub caller: AccountId,
    /// The contract's own account.
    pub account_id: AccountId,
    /// The native value sent along with the call.
    pub transferred_value: Balance,
    /// The contract's native balance.
    pub balance: Balance,
}

/// What a refused native transfer means for the message that asked for it.
#[derive(Clone, Copy, Debug, PartialEq, Eq, Structural)]
pub enum Refusal {
    /// The message returns this error, which reverts it.
    Reported(Error),
    /// The message traps, which reverts it.
    Trap,
}

/// A transfer of the contract's native funds that a message leaves for the
/// chain to make once the contract's own state has been updated.
#[derive(Clone, Copy, Debug, PartialEq, Eq)]
pub struct NativeTransfer {
    pub to: AccountId,
    pub amount: Balance,
    pub on_refusal: Refusal,
}

/// How a message ends on the chain.
#[derive(Clone, Copy, Debug, PartialEq, Eq)]
pub enum Outcome {
    /// The message returns `Ok(())` and its changes are kept.
    Kept,
    /// The message returns this error and the chain reverts its changes.
    Reverted(Error),
    /// The message traps and the chain reverts its changes.
    Trapped,
}

/// How a message that returned `result` and asked for `transfer` ends, once
/// the chain has made (`delivered`) or refused the transfer.
pub open spec fn spec_conclude(
    result: Result<(), Error>,
    transfer: Option<NativeTransfer>,
    delivered: bool,
) -> Outcome {
    match result {
        Err(e) => Outcome::Reverted(e),
        Ok(()) => match transfer {
            None => Outcome::Kept,
            Some(t) => if delivered {
                Outcome::Kept
            } else {
                match t.on_refusal {
                    Refusal::Reported(e) => Outcome::Reverted(e),
                    Refusal::Trap => Outcome::Trapped,
                }
            },
        },
    }
}

/// How a message ends, given what it returned, the native transfer it asked
/// for and whether the chain made that transfer.
pub fn conclude(result: Result<(), Error>, transfer: Option<NativeTransfer>, delivered: bool) -> (o:
    Outcome)
    ensures
        o == spec_conclude(result, transfer, delivered),
{
    match result {
        Err(e) => Outcome::Reverted(e),
        Ok(()) => match transfer {
            None => Outcome::Kept,
            Some(t) => if delivered {
                Outcome::Kept
            } else {
                match t.on_refusal {
                    Refusal::Reported(e) => Outcome::Reverted(e),
                    Refusal::Trap => Outcome::Trapped,
                }
            },
        },
    }
}

/// The amount a wrap works with: the native value sent along for native
/// wrapping, the given amount for a PSP22 token.
pub open spec fn amount_to_use(env: CallEnv, token_address: Option<AccountId>, amount: Balance) -> Balance {
    if token_address is None {
        env.transferred_value
    } else {
        amount
    }
}

/// The value a setting takes when an update offers `update`.
pub open spec fn updated<T>(current: T, update: Option<T>) -> T {
    match update {
        Some(v) => v,
        None => current,
    }
}

/// The view of an optional string.
pub open spec fn string_view(s: Option<String>) -> Option<Seq<char>> {
    match s {
        Some(s) => Some(s@),
        None => None,
    }
}

/// Whether `list` records `token` as `true`.
pub open spec fn is_listed(list: Map<AccountId, bool>, token: AccountId) -> bool {
    list.contains_key(token) && list[token]
}

/// What the token wrapper holds.
pub struct WrapperView {
    pub name: Option<Seq<char>>,
    pub symbol: Option<Seq<char>>,
    pub decimals: u8,
    pub ledger: LedgerView,
    pub governor: AccountId,
    pub fee_recipient: AccountId,
    pub fee_percentage: Balance,
    pub is_native_allowed: bool,
    pub wrapping_limit: u128,
    pub proposal_nonce: u64,
    pub tokens: Map<AccountId, bool>,
    pub historical_tokens: Map<AccountId, bool>,
    pub valid: Map<AccountId, bool>,
    pub historically_valid: Map<AccountId, bool>,
}

/// The outcome of a message that may ask for a native transfer: its result
/// (with the transfer it asks for when it succeeds), the state it leaves,
/// and the questions it put to recipients' hooks.
pub struct MessageView {
    pub result: Result<Option<NativeTransfer>, Error>,
    pub state: WrapperView,
    pub questions: Seq<HookQuestion>,
}

impl WrapperView {
    pub open spec fn with_ledger(self, ledger: LedgerView) -> WrapperView {
        WrapperView { ledger, ..self }
    }

    /// The fee for wrapping `amount`: `fee_percentage` percent of it, the
    /// product saturating at the largest balance.
    pub open spec fn fee_from_amount(self, amount: Balance) -> Balance {
        let product = amount * self.fee_percentage;
        let saturated = if product > Balance::MAX {
            Balance::MAX as int
        } else {
            product
        };
        (saturated / 100) as Balance
    }

    /// What is left of `amount` once the fee is taken, or nothing if the fee exceeds it.
    pub open spec fn leftover(self, amount: Balance) -> Balance {
        if self.fee_from_amount(amount) <= amount {
            (amount - self.fee_from_amount(amount)) as Balance
        } else {
            0
        }
    }

    /// Whether wrapping `amount` keeps the supply within the wrapping limit,
    /// the sum saturating at the largest balance.
    pub open spec fn amount_within_limit(self, amount: Balance) -> bool {
        let sum = amount + self.ledger.supply;
        if sum > Balance::MAX {
            Balance::MAX <= self.wrapping_limit
        } else {
            sum <= self.wrapping_limit
        }
    }

    /// The verdict on wrapping `amount` of `token_address` (native funds for
    /// `None`, where `amount` must be zero).
    pub open spec fn wrapping_check(self, env: CallEnv, token_address: Option<AccountId>, amount: Balance) -> Result<(), Error> {
        match token_address {
            None => if amount != 0 {
                Err(Error::InvalidAmountForNativeWrapping)
            } else if !self.is_native_allowed {
                Err(Error::NativeWrappingNotAllowed)
            } else if !self.amount_within_limit(amount) {
                Err(Error::InvalidTokenAmount)
            } else {
                Ok(())
            },
            Some(token) => if env.transferred_value != 0 {
                Err(Error::InvalidValueSentForWrapping)
            } else if !is_listed(self.valid, token) {
                Err(Error::InvalidTokenAddress)
            } else if !self.amount_within_limit(amount) {
                Err(Error::InvalidTokenAmount)
            } else {
                Ok(())
            },
        }
    }

    /// The verdict a wrap acts on: the wrapping check, then the wrapping
    /// limit applied to the amount actually wrapped (the value sent, for
    /// native funds).
    pub open spec fn wrap_verdict(self, env: CallEnv, token_address: Option<AccountId>, amount: Balance) -> Result<(), Error> {
        match self.wrapping_check(env, token_address, amount) {
            Err(e) => Err(e),
            Ok(()) => if self.amount_within_limit(amount_to_use(env, token_address, amount)) {
                Ok(())
            } else {
                Err(Error::InvalidTokenAmount)
            },
        }
    }

    /// The verdict on unwrapping `amount` into `token_address` (native funds for `None`).
    pub open spec fn unwrapping_check(self, env: CallEnv, token_address: Option<AccountId>, amount: Balance) -> Result<(), Error> {
        match token_address {
            None => if amount > env.balance {
                Err(Error::InsufficientNativeBalance)
            } else if !self.is_native_allowed {
                Err(Error::NativeUnwrappingNotAllowed)
            } else {
                Ok(())
            },
            Some(token) => if amount > self.ledger.balance(env.account_id) {
                Err(Error::InsufficientPSP22Balance)
            } else if !is_listed(self.historically_valid, token) {
                Err(Error::InvalidHistoricalTokenAddress)
            } else {
                Ok(())
            },
        }
    }

    /// The verdict on whether `address` is the governor.
    pub open spec fn governor_check(self, address: AccountId) -> Result<(), Error> {
        if self.governor != address {
            Err(Error::Unauthorize)
        } else {
            Ok(())
        }
    }

    /// Wrapping with fee `cost` and `leftover` to mint, the hooks answering
    /// `answers` from position `k` on: the result, the new state, the native
    /// transfer left for the chain, and the questions put to hooks.
    ///
    /// Native funds: `leftover` is minted for `mint_for` (a refused mint is
    /// passed over) and the fee goes to the fee recipient, a refusal being
    /// reported as `TransferError`. A PSP22 token: `leftover` of `sender`'s
    /// tokens move to the contract and `cost` to the fee recipient, spending
    /// the caller's allowance, then `leftover` is minted for `mint_for`; a
    /// refused move stops there with `TransferError`.
    pub open spec fn do_wrap_result(
        self,
        env: CallEnv,
        answers: Seq<bool>,
        k: int,
        token_address: Option<AccountId>,
        sender: AccountId,
        mint_for: AccountId,
        cost: Balance,
        leftover: Balance,
    ) -> (Result<(), Error>, WrapperView, Option<NativeTransfer>, Seq<HookQuestion>) {
        if token_address is None {
            (
                Ok(()),
                self.with_ledger(self.ledger.mint_result(mint_for, leftover).1),
                Some(
                    NativeTransfer {
                        to: self.fee_recipient,
                        amount: cost,
                        on_refusal: Refusal::Reported(Error::TransferError),
                    },
                ),
                Seq::empty(),
            )
        } else {
            let first = self.ledger.transfer_from_result(
                env.caller,
                sender,
                env.account_id,
                leftover,
                answer_at(answers, k),
            );
            let q1 = self.ledger.transfer_from_questions(env.caller, sender, env.account_id, leftover);
            if first.0 is Err {
                (Err(Error::TransferError), self.with_ledger(first.1), None, q1)
            } else {
                let second = first.1.transfer_from_result(
                    env.caller,
                    sender,
                    self.fee_recipient,
                    cost,
                    answer_at(answers, k + q1.len()),
                );
                let q2 = first.1.transfer_from_questions(env.caller, sender, self.fee_recipient, cost);
                if second.0 is Err {
                    (Err(Error::TransferError), self.with_ledger(second.1), None, q1 + q2)
                } else {
                    (
                        Ok(()),
                        self.with_ledger(second.1.mint_result(mint_for, leftover).1),
                        None,
                        q1 + q2,
                    )
                }
            }
        }
    }

    /// Whether wrapping with fee `cost` and `leftover` reaches a credit that
    /// does not fit in a balance or in the supply.
    pub open spec fn do_wrap_overflows(
        self,
        env: CallEnv,
        answers: Seq<bool>,
        k: int,
        token_address: Option<AccountId>,
        sender: AccountId,
        mint_for: AccountId,
        cost: Balance,
        leftover: Balance,
    ) -> bool {
        if token_address is None {
            self.ledger.mint_overflows(mint_for, leftover)
        } else {
            let first = self.ledger.transfer_from_result(
                env.caller,
                sender,
                env.account_id,
                leftover,
                answer_at(answers, k),
            );
            let q1 = self.ledger.transfer_from_questions(env.caller, sender, env.account_id, leftover);
            let second = first.1.transfer_from_result(
                env.caller,
                sender,
                self.fee_recipient,
                cost,
                answer_at(answers, k + q1.len()),
            );
            ||| self.ledger.transfer_from_overflows(env.caller, sender, env.account_id, leftover)
            ||| first.0 is Ok && first.1.transfer_from_overflows(
                env.caller,
                sender,
                self.fee_recipient,
                cost,
            )
            ||| first.0 is Ok && second.0 is Ok && second.1.mint_overflows(mint_for, leftover)
        }
    }

    /// A wrap of `amount` on behalf of `sender` for `mint_for`: the verdict
    /// first, then the wrap with the fee taken from the amount to use; a
    /// failed wrap changes nothing.
    pub open spec fn wrap_result(
        self,
        env: CallEnv,
        answers: Seq<bool>,
        k: int,
        token_address: Option<AccountId>,
        sender: AccountId,
        mint_for: AccountId,
        amount: Balance,
    ) -> MessageView {
        let used = amount_to_use(env, token_address, amount);
        match self.wrap_verdict(env, token_address, amount) {
            Err(e) => MessageView { result: Err(e), state: self, questions: Seq::empty() },
            Ok(()) => {
                let (r, after, transfer, questions) = self.do_wrap_result(
                    env,
                    answers,
                    k,
                    token_address,
                    sender,
                    mint_for,
                    self.fee_from_amount(used),
                    self.leftover(used),
                );
                match r {
                    Err(e) => MessageView { result: Err(e), state: self, questions },
                    Ok(()) => MessageView { result: Ok(transfer), state: after, questions },
                }
            },
        }
    }

    /// Whether a wrap passes its verdict and then reaches a credit that does not fit.
    pub open spec fn wrap_overflows(
        self,
        env: CallEnv,
        answers: Seq<bool>,
        k: int,
        token_address: Option<AccountId>,
        sender: AccountId,
        mint_for: AccountId,
        amount: Balance,
    ) -> bool {
        let used = amount_to_use(env, token_address, amount);
        &&& self.wrap_verdict(env, token_address, amount) is Ok
        &&& self.do_wrap_overflows(
            env,
            answers,
            k,
            token_address,
            sender,
            mint_for,
            self.fee_from_amount(used),
            self.leftover(used),
        )
    }

    /// Unwrapping `amount` once the check has passed: `amount` of
    /// `burn_for`'s wrapped tokens are burnt, then `sender` is paid, in
    /// native funds by a transfer whose refusal traps the message, or in
    /// wrapped tokens moved out of the contract's own balance. A refused burn
    /// or payment fails with `TransferError` and changes nothing.
    pub open spec fn do_unwrap_result(
        self,
        env: CallEnv,
        answers: Seq<bool>,
        k: int,
        token_address: Option<AccountId>,
        sender: AccountId,
        burn_for: AccountId,
        amount: Balance,
    ) -> MessageView {
        let (burn, burnt) = self.ledger.burn_result(burn_for, amount);
        if burn is Err {
            MessageView { result: Err(Error::TransferError), state: self, questions: Seq::empty() }
        } else if token_address is None {
            MessageView {
                result: Ok(Some(NativeTransfer { to: sender, amount, on_refusal: Refusal::Trap })),
                state: self.with_ledger(burnt),
                questions: Seq::empty(),
            }
        } else {
            let (paid, after) = burnt.transfer_result(
                env.account_id,
                sender,
                amount,
                answer_at(answers, k),
            );
            let questions = burnt.transfer_questions(env.caller, env.account_id, sender, amount);
            if paid is Err {
                MessageView { result: Err(Error::TransferError), state: self, questions }
            } else {
                MessageView { result: Ok(None), state: self.with_ledger(after), questions }
            }
        }
    }

    /// Whether unwrapping reaches a burn larger than the supply or a credit
    /// that does not fit in a balance.
    pub open spec fn do_unwrap_overflows(
        self,
        env: CallEnv,
        token_address: Option<AccountId>,
        sender: AccountId,
        burn_for: AccountId,
        amount: Balance,
    ) -> bool {
        let (burn, burnt) = self.ledger.burn_result(burn_for, amount);
        ||| self.ledger.burn_underflows(burn_for, amount)
        ||| burn is Ok && token_address is Some && burnt.transfer_overflows(
            env.account_id,
            sender,
            amount,
        )
    }

    /// An unwrap: the unwrapping check, then the unwrap itself; a failed
    /// unwrap changes nothing.
    pub open spec fn unwrap_result(
        self,
        env: CallEnv,
        answers: Seq<bool>,
        k: int,
        token_address: Option<AccountId>,
        sender: AccountId,
        burn_for: AccountId,
        amount: Balance,
    ) -> MessageView {
        match self.unwrapping_check(env, token_address, amount) {
            Err(e) => MessageView { result: Err(e), state: self, questions: Seq::empty() },
            Ok(()) => self.do_unwrap_result(env, answers, k, token_address, sender, burn_for, amount),
        }
    }

    /// Whether an unwrap passes its check and then overflows.
    pub open spec fn unwrap_overflows(
        self,
        env: CallEnv,
        token_address: Option<AccountId>,
        sender: AccountId,
        burn_for: AccountId,
        amount: Balance,
    ) -> bool {
        &&& self.unwrapping_check(env, token_address, amount) is Ok
        &&& self.do_unwrap_overflows(env, token_address, sender, burn_for, amount)
    }

    /// `caller` adding `token_address` to the wrapping list under proposal `nonce`.
    pub open spec fn add_token_result(self, caller: AccountId, token_address: AccountId, nonce: u64) -> (
        Result<(), Error>,
        WrapperView,
    ) {
        if self.governor != caller {
            (Err(Error::Unauthorize), self)
        } else if is_listed(self.valid, token_address) {
            (Err(Error::TokenAddressAlreadyExists), self)
        } else if self.proposal_nonce > nonce {
            (Err(Error::InvalidNonce), self)
        } else if nonce != self.proposal_nonce + 1 {
            (Err(Error::NonceMustIncrementByOne), self)
        } else {
            (
                Ok(()),
                WrapperView {
                    valid: self.valid.insert(token_address, true),
                    historically_valid: self.historically_valid.insert(token_address, true),
                    tokens: self.tokens.insert(token_address, true),
                    historical_tokens: self.historical_tokens.insert(token_address, true),
                    proposal_nonce: nonce,
                    ..self
                },
            )
        }
    }

    /// `caller` removing `token_address` from the wrapping list under proposal `nonce`.
    pub open spec fn remove_token_result(self, caller: AccountId, token_address: AccountId, nonce: u64) -> (
        Result<(), Error>,
        WrapperView,
    ) {
        if self.governor != caller {
            (Err(Error::Unauthorize), self)
        } else if !is_listed(self.valid, token_address) {
            (Err(Error::InvalidTokenAddress), self)
        } else if self.proposal_nonce > nonce {
            (Err(Error::InvalidNonce), self)
        } else if nonce != self.proposal_nonce + 1 {
            (Err(Error::NonceMustIncrementByOne), self)
        } else {
            (
                Ok(()),
                WrapperView {
                    valid: self.valid.insert(token_address, false),
                    tokens: self.tokens.insert(token_address, false),
                    proposal_nonce: nonce,
                    ..self
                },
            )
        }
    }

    /// Whether a token-list proposal by `caller` reaches `proposal_nonce + 1`
    /// with `proposal_nonce` at its largest value; `passes_listing` is
    /// whether the token's listing passes its check.
    pub open spec fn nonce_overflows(self, caller: AccountId, passes_listing: bool, nonce: u64) -> bool {
        &&& self.governor == caller
        &&& passes_listing
        &&& self.proposal_nonce <= nonce
        &&& self.proposal_nonce == u64::MAX
    }

    /// The settings after `caller` offers the given updates: only the
    /// governor's updates take effect.
    pub open spec fn config_result(
        self,
        caller: AccountId,
        governor: Option<AccountId>,
        is_native_allowed: Option<bool>,
        wrapping_limit: Option<u128>,
        fee_percentage: Option<Balance>,
        fee_recipient: Option<AccountId>,
    ) -> WrapperView {
        if self.governor != caller {
            self
        } else {
            WrapperView {
                governor: updated(self.governor, governor),
                is_native_allowed: updated(self.is_native_allowed, is_native_allowed),
                wrapping_limit: updated(self.wrapping_limit, wrapping_limit),
                fee_percentage: updated(self.fee_percentage, fee_percentage),
                fee_recipient: updated(self.fee_recipient, fee_recipient),
                ..self
            }
        }
    }

    /// A ledger operation as a message: its new ledger is kept when it
    /// succeeds, and nothing changes when it fails.
    pub open spec fn ledger_message(self, outcome: (Result<(), Psp22Error>, LedgerView)) -> (
        Result<(), Psp22Error>,
        WrapperView,
    ) {
        if outcome.0 is Ok {
            (outcome.0, self.with_ledger(outcome.1))
        } else {
            (outcome.0, self)
        }
    }
}

/// Everything a token wrapper holds, as plain values: the form in which a
/// storage layer keeps it between messages.
pub struct WrapperParts {
    pub name: Option<String>,
    pub symbol: Option<String>,
    pub decimals: u8,
    pub supply: Balance,
    pub balances: Vec<(AccountId, Balance)>,
    pub allowances: Vec<(AllowanceKey, Balance)>,
    pub governor: AccountId,
    pub fee_recipient: AccountId,
    pub fee_percentage: Balance,
    pub is_native_allowed: bool,
    pub wrapping_limit: u128,
    pub proposal_nonce: u64,
    pub tokens: Vec<(AccountId, bool)>,
    pub historical_tokens: Vec<(AccountId, bool)>,
    pub valid: Vec<(AccountId, bool)>,
    pub historically_valid: Vec<(AccountId, bool)>,
}

/// The wrapper state that `parts` describes; the entries of each list are
/// written in order.
pub open spec fn parts_view(parts: WrapperParts) -> WrapperView {
    WrapperView {
        name: string_view(parts.name),
        symbol: string_view(parts.symbol),
        decimals: parts.decimals,
        ledger: LedgerView {
            supply: parts.supply,
            balances: entries_map(parts.balances@),
            allowances: entries_map(parts.allowances@),
        },
        governor: parts.governor,
        fee_recipient: parts.fee_recipient,
        fee_percentage: parts.fee_percentage,
        is_native_allowed: parts.is_native_allowed,
        wrapping_limit: parts.wrapping_limit,
        proposal_nonce: parts.proposal_nonce,
        tokens: entries_map(parts.tokens@),
        historical_tokens: entries_map(parts.historical_tokens@),
        valid: entries_map(parts.valid@),
        historically_valid: entries_map(parts.historically_valid@),
    }
}

/// The governed token wrapper: a PSP22 token minted against wrapped native
/// funds or listed PSP22 tokens.
pub struct GovernedTokenWrapper {
    name: Option<String>,
    symbol: Option<String>,
    decimals: u8,
    psp22: Psp22Data,
    governor: AccountId,
    fee_recipient: AccountId,
    fee_percentage: Balance,
    is_native_allowed: bool,
    wrapping_limit: u128,
    proposal_nonce: u64,
    tokens: Table<AccountId, bool>,
    historical_tokens: Table<AccountId, bool>,
    valid: Table<AccountId, bool>,
    historically_valid: Table<AccountId, bool>,
}

impl View for GovernedTokenWrapper {
    type V = WrapperView;

    closed spec fn view(&self) -> WrapperView {
        WrapperView {
            name: string_view(self.name),
            symbol: string_view(self.symbol),
            decimals: self.decimals,
            ledger: self.psp22@,
            governor: self.governor,
            fee_recipient: self.fee_recipient,
            fee_percentage: self.fee_percentage,
            is_native_allowed: self.is_native_allowed,
            wrapping_limit: self.wrapping_limit,
            proposal_nonce: self.proposal_nonce,
            tokens: self.tokens@,
            historical_tokens: self.historical_tokens@,
            valid: self.valid@,
            historically_valid: self.historically_valid@,
        }
    }
}

impl GovernedTokenWrapper {
    /// The ledger and the token lists are well formed.
    pub closed spec fn wf(&self) -> bool {
        &&& self.psp22.wf()
        &&& self.tokens.wf()
        &&& self.historical_tokens.wf()
        &&& self.valid.wf()
        &&& self.historically_valid.wf()
    }
}

impl GovernedTokenWrapper {
    /// Initializes the contract
    ///
    /// # Arguments
    /// * `name` - The contract's token name
    /// * `symbol` - The contract's token symbol
    /// * `decimal` - The contract's decimal value
    /// * `governor` - The contract's governor
    /// * `fee_recipient` - The contract's fee recipient address
    /// * `fee_percentage` - The contract's fee percentage
    /// * `is_native_allowed` - Determines if the contract should allow native token wrapping
    /// * `wrapping_limit` - The contract's wrapping limit
    /// * `proposal_nonce` - The nonce used for adding/removing token address
    /// * `_token_address` - Not used
    /// * `total_supply` - The wrapped token's initial total supply
    /// * `governor_balance` - The governor's initial balance of wrapped tokens
    pub fn new(
        name: Option<String>,
        symbol: Option<String>,
        decimal: u8,
        governor: AccountId,
        fee_recipient: AccountId,
        fee_percentage: Balance,
        is_native_allowed: bool,
        wrapping_limit: u128,
        proposal_nonce: u64,
        _token_address: AccountId,
        total_supply: Balance,
        governor_balance: Balance,
    ) -> (w: Self)
        ensures
            w.wf(),
            w@ == (WrapperView {
                name: string_view(name),
                symbol: string_view(symbol),
                decimals: decimal,
                ledger: LedgerView {
                    supply: total_supply,
                    balances: Map::empty().insert(governor, governor_balance),
                    allowances: Map::empty(),
                },
                governor,
                fee_recipient,
                fee_percentage,
                is_native_allowed,
                wrapping_limit,
                proposal_nonce,
                tokens: Map::empty(),
                historical_tokens: Map::empty(),
                valid: Map::empty(),
                historically_valid: Map::empty(),
            }),
    {
        let mut psp22 = Psp22Data::new();
        psp22.set_supply(total_supply);
        psp22.set_balance(governor, governor_balance);
        GovernedTokenWrapper {
            name,
            symbol,
            decimals: decimal,
            psp22,
            governor,
            fee_recipient,
            fee_percentage,
            is_native_allowed,
            wrapping_limit,
            proposal_nonce,
            tokens: Table::new(),
            historical_tokens: Table::new(),
            valid: Table::new(),
            historically_valid: Table::new(),
        }
    }

    /// The token wrapper that `parts` describes.
    pub fn from_parts(parts: WrapperParts) -> (w: Self)
        ensures
            w.wf(),
            w@ == parts_view(parts),
    {
        let psp22 = Psp22Data::from_entries(parts.supply, &parts.balances, &parts.allowances);
        let tokens = Table::from_entries(&parts.tokens);
        let historical_tokens = Table::from_entries(&parts.historical_tokens);
        let valid = Table::from_entries(&parts.valid);
        let historically_valid = Table::from_entries(&parts.historically_valid);
        GovernedTokenWrapper {
            name: parts.name,
            symbol: parts.symbol,
            decimals: parts.decimals,
            psp22,
            governor: parts.governor,
            fee_recipient: parts.fee_recipient,
            fee_percentage: parts.fee_percentage,
            is_native_allowed: parts.is_native_allowed,
            wrapping_limit: parts.wrapping_limit,
            proposal_nonce: parts.proposal_nonce,
            tokens,
            historical_tokens,
            valid,
            historically_valid,
        }
    }

    /// Everything the token wrapper holds, as plain values.
    pub fn to_parts(&self) -> (p: WrapperParts)
        requires
            self.wf(),
        ensures
            parts_view(p) == self@,
    {
        let name = match &self.name {
            Some(n) => Some(n.clone()),
            None => None,
        };
        let symbol = match &self.symbol {
            Some(n) => Some(n.clone()),
            None => None,
        };
        WrapperParts {
            name,
            symbol,
            decimals: self.decimals,
            supply: self.psp22.total_supply(),
            balances: self.psp22.balance_entries(),
            allowances: self.psp22.allowance_entries(),
            governor: self.governor,
            fee_recipient: self.fee_recipient,
            fee_percentage: self.fee_percentage,
            is_native_allowed: self.is_native_allowed,
            wrapping_limit: self.wrapping_limit,
            proposal_nonce: self.proposal_nonce,
            tokens: self.tokens.entries(),
            historical_tokens: self.historical_tokens.entries(),
            valid: self.valid.entries(),
            historically_valid: self.historically_valid.entries(),
        }
    }

}

impl GovernedTokenWrapper {
    /// Returns the `governor` value.
    pub fn governor(&self) -> (r: AccountId)
        ensures
            r == self@.governor,
    {
        self.governor
    }

    /// Returns the `is_native_allowed` value.
    pub fn is_native_allowed(&self) -> (r: bool)
        ensures
            r == self@.is_native_allowed,
    {
        self.is_native_allowed
    }

    /// Returns the `wrapping_limit` value.
    pub fn wrapping_limit(&self) -> (r: u128)
        ensures
            r == self@.wrapping_limit,
    {
        self.wrapping_limit
    }

    /// Returns the `fee_percentage` value.
    pub fn fee_percentage(&self) -> (r: Balance)
        ensures
            r == self@.fee_percentage,
    {
        self.fee_percentage
    }

    /// Returns the `fee_recipient` value.
    pub fn fee_recipient(&self) -> (r: AccountId)
        ensures
            r == self@.fee_recipient,
    {
        self.fee_recipient
    }

    /// Returns the token `name` .
    pub fn name(&self) -> (r: Option<String>)
        ensures
            string_view(r) == self@.name,
    {
        match &self.name {
            Some(n) => Some(n.clone()),
            None => None,
        }
    }

    /// Returns the `proposal_nonce` value.
    pub fn nonce(&self) -> (r: u64)
        ensures
            r == self@.proposal_nonce,
    {
        self.proposal_nonce
    }

    /// Checks if a token_address is a valid one: listed, and not removed
    /// since.
    pub fn is_valid_token_address(&self, token_address: AccountId) -> (r: bool)
        requires
            self.wf(),
        ensures
            r == is_listed(self@.valid, token_address),
    {
        self.is_valid_address(token_address)
    }

    /// Returns total psp22 token supply
    pub fn total_supply(&self) -> (r: Balance)
        ensures
            r == self@.ledger.supply,
    {
        self.psp22.total_supply()
    }

    /// Returns the wrapped-token balance of `token_address`.
    pub fn psp22_balance(&self, token_address: AccountId) -> (r: Balance)
        requires
            self.wf(),
        ensures
            r == self@.ledger.balance(token_address),
    {
        self.psp22.balance_of(&token_address)
    }

}

/// A transfer of the underlying PSP22 token that `withdraw_to` leaves for
/// the underlying token contract to make; a refusal reverts the message.
#[derive(Clone, Copy, Debug, PartialEq, Eq)]
pub struct UnderlyingTransfer {
    pub to: AccountId,
    pub amount: Balance,
}

impl GovernedTokenWrapper {
    /// Used to wrap tokens on behalf of a sender.
    ///
    /// # Arguments
    ///
    /// * `token_address` - The address of PSP22 to transfer to, if token_address is None,
    /// then it's a Native token address
    /// * `amount` - The amount of token to transfer
    ///
    /// Returns the wrapping check's error, or `do_wrap`'s, and then changes
    /// nothing; on success, the native fee transfer left for the chain.
    pub fn wrap(
        &mut self,
        env: &CallEnv,
        hooks: &mut ReceiverHooks,
        token_address: Option<AccountId>,
        amount: Balance,
    ) -> (r: Result<Option<NativeTransfer>, Error>)
        requires
            old(self).wf(),
            !old(self)@.wrap_overflows(
                *env,
                old(hooks).answers(),
                old(hooks).asked().len() as int,
                token_address,
                env.caller,
                env.caller,
                amount,
            ),
        ensures
            final(self).wf(),
            ({
                let m = old(self)@.wrap_result(
                    *env,
                    old(hooks).answers(),
                    old(hooks).asked().len() as int,
                    token_address,
                    env.caller,
                    env.caller,
                    amount,
                );
                &&& r == m.result
                &&& final(self)@ == m.state
                &&& final(hooks).answers() == old(hooks).answers()
                &&& final(hooks).asked() == old(hooks).asked() + m.questions
            }),
    {
        self.wrap_checked(env, hooks, token_address, env.caller, env.caller, amount)
    }

    /// Used to wrap tokens on behalf of a sender
    ///
    /// # Arguments
    /// * `token_address` - is the Account id of PSP22 to unwrap into,
    ///
    /// * `amount` - is the amount of tokens to transfer
    ///
    /// * `sender` -  is the Account id of sender where assets are sent from.
    ///
    /// On success, returns the `Wrap` event to emit.
    pub fn wrap_for(
        &mut self,
        env: &CallEnv,
        hooks: &mut ReceiverHooks,
        token_address: Option<AccountId>,
        sender: AccountId,
        amount: Balance,
    ) -> (r: Result<(Wrap, Option<NativeTransfer>), Error>)
        requires
            old(self).wf(),
            !old(self)@.wrap_overflows(
                *env,
                old(hooks).answers(),
                old(hooks).asked().len() as int,
                token_address,
                sender,
                sender,
                amount,
            ),
        ensures
            final(self).wf(),
            ({
                let m = old(self)@.wrap_result(
                    *env,
                    old(hooks).answers(),
                    old(hooks).asked().len() as int,
                    token_address,
                    sender,
                    sender,
                    amount,
                );
                &&& r == match m.result {
                    Ok(t) => Ok((Wrap { sender: Some(sender), mint_for: Some(sender), amount }, t)),
                    Err(e) => Err(e),
                }
                &&& final(self)@ == m.state
                &&& final(hooks).answers() == old(hooks).answers()
                &&& final(hooks).asked() == old(hooks).asked() + m.questions
            }),
    {
        match self.wrap_checked(env, hooks, token_address, sender, sender, amount) {
            Ok(transfer) => Ok((Wrap { sender: Some(sender), mint_for: Some(sender), amount }, transfer)),
            Err(e) => Err(e),
        }
    }

    /// Used to wrap tokens on behalf of a sender and mint to a potentially different address
    ///
    /// # Arguments
    ///
    /// * `token_address` - is the address of PSP22 to unwrap into,
    /// * `sender` - is Address of sender where assets are sent from.
    /// * `amount` - is the amount of tokens to transfer
    /// * `recipient` - is the recipient of the wrapped tokens.
    pub fn wrap_for_and_send_to(
        &mut self,
        env: &CallEnv,
        hooks: &mut ReceiverHooks,
        token_address: Option<AccountId>,
        sender: AccountId,
        amount: Balance,
        recipient: AccountId,
    ) -> (r: Result<Option<NativeTransfer>, Error>)
        requires
            old(self).wf(),
            !old(self)@.wrap_overflows(
                *env,
                old(hooks).answers(),
                old(hooks).asked().len() as int,
                token_address,
                sender,
                recipient,
                amount,
            ),
        ensures
            final(self).wf(),
            ({
                let m = old(self)@.wrap_result(
                    *env,
                    old(hooks).answers(),
                    old(hooks).asked().len() as int,
                    token_address,
                    sender,
                    recipient,
                    amount,
                );
                &&& r == m.result
                &&& final(self)@ == m.state
                &&& final(hooks).answers() == old(hooks).answers()
                &&& final(hooks).asked() == old(hooks).asked() + m.questions
            }),
    {
        self.wrap_checked(env, hooks, token_address, sender, recipient, amount)
    }

    /// The wrap shared by the three wrapping messages: the wrapping check,
    /// the limit on the amount to use, then `do_wrap`, undone if it fails.
    fn wrap_checked(
        &mut self,
        env: &CallEnv,
        hooks: &mut ReceiverHooks,
        token_address: Option<AccountId>,
        sender: AccountId,
        mint_for: AccountId,
        amount: Balance,
    ) -> (r: Result<Option<NativeTransfer>, Error>)
        requires
            old(self).wf(),
            !old(self)@.wrap_overflows(
                *env,
                old(hooks).answers(),
                old(hooks).asked().len() as int,
                token_address,
                sender,
                mint_for,
                amount,
            ),
        ensures
            final(self).wf(),
            ({
                let m = old(self)@.wrap_result(
                    *env,
                    old(hooks).answers(),
                    old(hooks).asked().len() as int,
                    token_address,
                    sender,
                    mint_for,
                    amount,
                );
                &&& r == m.result
                &&& final(self)@ == m.state
                &&& final(hooks).answers() == old(hooks).answers()
                &&& final(hooks).asked() == old(hooks).asked() + m.questions
            }),
    {
        match self.is_valid_wrapping(env, token_address, amount) {
            Err(e) => {
                return Err(e);
            },
            Ok(()) => {},
        }
        let amount_to_use = if token_address.is_none() {
            env.transferred_value
        } else {
            amount
        };
        if !self.is_valid_amount(amount_to_use) {
            return Err(Error::InvalidTokenAmount);
        }
        let cost_to_wrap = self.get_fee_from_amount(amount_to_use);
        let leftover = amount_to_use.saturating_sub(cost_to_wrap);
        let saved = self.psp22.duplicate();
        let ghost before = self@;
        let (result, transfer) = self.do_wrap(
            env,
            hooks,
            token_address,
            sender,
            mint_for,
            cost_to_wrap,
            leftover,
        );
        match result {
            Err(e) => {
                self.psp22 = saved;
                assert(self@ == before);
                Err(e)
            },
            Ok(()) => Ok(transfer),
        }
    }

    /// Used to unwrap/burn the wrapper token on behalf of a sender.
    ///
    /// # Arguments
    ///
    /// * `token_address` -  The address of PSP22 to transfer to, if token_address is None,
    /// then it's a Native token address
    /// * `amount` -  The the amount of token to transfer
    pub fn unwrap(
        &mut self,
        env: &CallEnv,
        hooks: &mut ReceiverHooks,
        token_address: Option<AccountId>,
        amount: Balance,
    ) -> (r: Result<Option<NativeTransfer>, Error>)
        requires
            old(self).wf(),
            !old(self)@.unwrap_overflows(*env, token_address, env.caller, env.caller, amount),
        ensures
            final(self).wf(),
            ({
                let m = old(self)@.unwrap_result(
                    *env,
                    old(hooks).answers(),
                    old(hooks).asked().len() as int,
                    token_address,
                    env.caller,
                    env.caller,
                    amount,
                );
                &&& r == m.result
                &&& final(self)@ == m.state
                &&& final(hooks).answers() == old(hooks).answers()
                &&& final(hooks).asked() == old(hooks).asked() + m.questions
            }),
    {
        match self.is_valid_unwrapping(env, token_address, amount) {
            Err(e) => {
                return Err(e);
            },
            Ok(()) => {},
        }
        self.do_unwrap(env, hooks, token_address, env.caller, env.caller, amount)
    }

    /// Used to unwrap/burn the wrapper token on behalf of a sender.
    ///
    /// # Arguments
    ///
    /// * `token_address` - is the address of PSP22 to unwrap into,
    /// * `amount` - is the amount of tokens to burn
    /// * `recipient` is the address to transfer to
    pub fn unwrap_and_send_to(
        &mut self,
        env: &CallEnv,
        hooks: &mut ReceiverHooks,
        token_address: Option<AccountId>,
        amount: Balance,
        recipient: AccountId,
    ) -> (r: Result<Option<NativeTransfer>, Error>)
        requires
            old(self).wf(),
            !old(self)@.unwrap_overflows(*env, token_address, recipient, env.caller, amount),
        ensures
            final(self).wf(),
            ({
                let m = old(self)@.unwrap_result(
                    *env,
                    old(hooks).answers(),
                    old(hooks).asked().len() as int,
                    token_address,
                    recipient,
                    env.caller,
                    amount,
                );
                &&& r == m.result
                &&& final(self)@ == m.state
                &&& final(hooks).answers() == old(hooks).answers()
                &&& final(hooks).asked() == old(hooks).asked() + m.questions
            }),
    {
        match self.is_valid_unwrapping(env, token_address, amount) {
            Err(e) => {
                return Err(e);
            },
            Ok(()) => {},
        }
        self.do_unwrap(env, hooks, token_address, recipient, env.caller, amount)
    }

    /// Used to unwrap/burn the wrapper token on behalf of a sender.
    ///
    /// # Arguments
    ///
    /// * `token_address` - is the address of PSP22 to transfer to, if token_address is None,
    ///  then it's a Native token address
    /// * `amount` - is the amount of token to transfer
    /// * `sender` - is the Address of sender where liquidity is send to.
    pub fn unwrap_for(
        &mut self,
        env: &CallEnv,
        hooks: &mut ReceiverHooks,
        token_address: Option<AccountId>,
        amount: Balance,
        sender: AccountId,
    ) -> (r: Result<Option<NativeTransfer>, Error>)
        requires
            old(self).wf(),
            !old(self)@.unwrap_overflows(*env, token_address, sender, sender, amount),
        ensures
            final(self).wf(),
            ({
                let m = old(self)@.unwrap_result(
                    *env,
                    old(hooks).answers(),
                    old(hooks).asked().len() as int,
                    token_address,
                    sender,
                    sender,
                    amount,
                );
                &&& r == m.result
                &&& final(self)@ == m.state
                &&& final(hooks).answers() == old(hooks).answers()
                &&& final(hooks).asked() == old(hooks).asked() + m.questions
            }),
    {
        match self.is_valid_unwrapping(env, token_address, amount) {
            Err(e) => {
                return Err(e);
            },
            Ok(()) => {},
        }
        self.do_unwrap(env, hooks, token_address, sender, sender, amount)
    }

    /// Adds a token at `token_address` to the GovernedTokenWrapper's wrapping list
    ///
    /// # Arguments
    ///
    /// * `token_address` - The address of the token to be added
    /// * `nonce` -  The nonce tracking updates to this contract
    ///
    /// Only the governor may add a token.
    pub fn add_token_address(&mut self, env: &CallEnv, token_address: AccountId, nonce: u64) -> (r:
        Result<(), Error>)
        requires
            old(self).wf(),
            !old(self)@.nonce_overflows(
                env.caller,
                !is_listed(old(self)@.valid, token_address),
                nonce,
            ),
        ensures
            final(self).wf(),
            (r, final(self)@) == old(self)@.add_token_result(env.caller, token_address, nonce),
    {
        match self.is_governor(env.caller) {
            Err(e) => {
                return Err(e);
            },
            Ok(()) => {},
        }
        if self.is_valid_address(token_address) {
            return Err(Error::TokenAddressAlreadyExists);
        }
        if self.proposal_nonce > nonce {
            return Err(Error::InvalidNonce);
        }
        if nonce != self.proposal_nonce + 1 {
            return Err(Error::NonceMustIncrementByOne);
        }
        self.valid.insert(token_address, true);
        self.historically_valid.insert(token_address, true);
        self.tokens.insert(token_address, true);
        self.historical_tokens.insert(token_address, true);
        self.proposal_nonce = nonce;
        Ok(())
    }

    /// Removes a token at `token_address` from the GovernedTokenWrapper's wrapping list
    ///
    /// # Arguments
    ///
    /// * `token_address`:  The address of the token to be added
    /// * `nonce`: The nonce tracking updates to this contract
    ///
    /// Only the governor may remove a token.
    pub fn remove_token_address(&mut self, env: &CallEnv, token_address: AccountId, nonce: u64) -> (r:
        Result<(), Error>)
        requires
            old(self).wf(),
            !old(self)@.nonce_overflows(
                env.caller,
                is_listed(old(self)@.valid, token_address),
                nonce,
            ),
        ensures
            final(self).wf(),
            (r, final(self)@) == old(self)@.remove_token_result(env.caller, token_address, nonce),
    {
        match self.is_governor(env.caller) {
            Err(e) => {
                return Err(e);
            },
            Ok(()) => {},
        }
        if !self.is_valid_address(token_address) {
            return Err(Error::InvalidTokenAddress);
        }
        if self.proposal_nonce > nonce {
            return Err(Error::InvalidNonce);
        }
        if nonce != self.proposal_nonce + 1 {
            return Err(Error::NonceMustIncrementByOne);
        }
        self.valid.insert(token_address, false);
        self.tokens.insert(token_address, false);
        self.proposal_nonce = nonce;
        Ok(())
    }

    /// Updates contract configs
    ///
    /// # Arguments
    ///
    /// * `governor` - Sets the contract's governor
    /// * `is_native_allowed` - Determines if the contract should allow native token wrapping
    /// * `wrapping_limit` - Sets the contract's wrapping limit
    /// * `fee_percentage` - Sets the contract's fee percentage
    /// * `fee_recipient` - Sets the contract's fee recipient address
    ///
    /// Only the governor's updates take effect; anyone else's change nothing.
    pub fn update_config(
        &mut self,
        env: &CallEnv,
        governor: Option<AccountId>,
        is_native_allowed: Option<bool>,
        wrapping_limit: Option<u128>,
        fee_percentage: Option<Balance>,
        fee_recipient: Option<AccountId>,
    )
        requires
            old(self).wf(),
        ensures
            final(self).wf(),
            final(self)@ == old(self)@.config_result(
                env.caller,
                governor,
                is_native_allowed,
                wrapping_limit,
                fee_percentage,
                fee_recipient,
            ),
    {
        if self.is_governor(env.caller).is_err() {
            return;
        }
        if governor.is_some() {
            self.governor = governor.unwrap();
        }
        if is_native_allowed.is_some() {
            self.is_native_allowed = is_native_allowed.unwrap();
        }
        if wrapping_limit.is_some() {
            self.wrapping_limit = wrapping_limit.unwrap_or(self.wrapping_limit);
        }
        if fee_percentage.is_some() {
            self.fee_percentage = fee_percentage.unwrap();
        }
        if fee_recipient.is_some() {
            self.fee_recipient = fee_recipient.unwrap();
        }
    }

    /// Handles unwrapping by transferring token to the sender and burning for the burn_for address
    /// # Arguments
    ///
    /// * `token_address` - is the address of PSP22 to unwrap into,
    /// * `sender` - is Address of sender where assets are sent from.
    /// * `burn_for` - is the address that the token gets burnt from.
    /// * `amount` - is the amount of tokens to transfer
    pub fn do_unwrap(
        &mut self,
        env: &CallEnv,
        hooks: &mut ReceiverHooks,
        token_address: Option<AccountId>,
        sender: AccountId,
        burn_for: AccountId,
        amount: Balance,
    ) -> (r: Result<Option<NativeTransfer>, Error>)
        requires
            old(self).wf(),
            !old(self)@.do_unwrap_overflows(*env, token_address, sender, burn_for, amount),
        ensures
            final(self).wf(),
            ({
                let m = old(self)@.do_unwrap_result(
                    *env,
                    old(hooks).answers(),
                    old(hooks).asked().len() as int,
                    token_address,
                    sender,
                    burn_for,
                    amount,
                );
                &&& r == m.result
                &&& final(self)@ == m.state
                &&& final(hooks).answers() == old(hooks).answers()
                &&& final(hooks).asked() == old(hooks).asked() + m.questions
            }),
    {
        // burn wrapped token from burn_for
        let mut ledger = self.psp22.duplicate();
        if ledger.burn_from(burn_for, amount).is_err() {
            return Err(Error::TransferError);
        }
        if token_address.is_none() {
            // the native liquidity goes to the sender once the chain makes the transfer
            self.psp22 = ledger;
            return Ok(Some(NativeTransfer { to: sender, amount, on_refusal: Refusal::Trap }));
        }
        // transfer PSP22 liquidity from the token wrapper to the sender
        if ledger.transfer_from_to(env.caller, env.account_id, sender, amount, hooks).is_err() {
            return Err(Error::TransferError);
        }
        self.psp22 = ledger;
        Ok(None)
    }

    /// Handles wrapping by transferring token to the sender and minting for the mint_for address
    ///
    /// # Arguments
    ///
    /// * `token_address` - Is the address of PSP22 to unwrap into,
    /// * `sender` - Is Address of sender where assets are sent from.
    /// * `mint_for` - Is the address that the token gets burnt from.
    /// * `cost_to_wrap` - Is the cost for wrapping token.
    /// * `leftover` - Is the amount of leftover.
    pub fn do_wrap(
        &mut self,
        env: &CallEnv,
        hooks: &mut ReceiverHooks,
        token_address: Option<AccountId>,
        sender: AccountId,
        mint_for: AccountId,
        cost_to_wrap: Balance,
        leftover: Balance,
    ) -> (r: (Result<(), Error>, Option<NativeTransfer>))
        requires
            old(self).wf(),
            !old(self)@.do_wrap_overflows(
                *env,
                old(hooks).answers(),
                old(hooks).asked().len() as int,
                token_address,
                sender,
                mint_for,
                cost_to_wrap,
                leftover,
            ),
        ensures
            final(self).wf(),
            ({
                let (result, after, transfer, questions) = old(self)@.do_wrap_result(
                    *env,
                    old(hooks).answers(),
                    old(hooks).asked().len() as int,
                    token_address,
                    sender,
                    mint_for,
                    cost_to_wrap,
                    leftover,
                );
                &&& r.0 == result
                &&& final(self)@ == after
                &&& r.1 == transfer
                &&& final(hooks).answers() == old(hooks).answers()
                &&& final(hooks).asked() == old(hooks).asked() + questions
            }),
    {
        if token_address.is_none() {
            let _ = self.psp22.mint(mint_for, leftover);
            (
                Ok(()),
                Some(
                    NativeTransfer {
                        to: self.fee_recipient,
                        amount: cost_to_wrap,
                        on_refusal: Refusal::Reported(Error::TransferError),
                    },
                ),
            )
        } else {
            if self.psp22.transfer_from(env.caller, sender, env.account_id, leftover, hooks).is_err() {
                return (Err(Error::TransferError), None);
            }
            if self.psp22.transfer_from(
                env.caller,
                sender,
                self.fee_recipient,
                cost_to_wrap,
                hooks,
            ).is_err() {
                return (Err(Error::TransferError), None);
            }
            let _ = self.psp22.mint(mint_for, leftover);
            (Ok(()), None)
        }
    }

    /// Checks to determine if it's safe to wrap
    ///
    /// # Arguments
    ///
    /// * `token_address` - Is the address for wrapping,
    /// * `amount` - Is the amount for wrapping.
    pub fn is_valid_wrapping(&self, env: &CallEnv, token_address: Option<AccountId>, amount: Balance) -> (r:
        Result<(), Error>)
        requires
            self.wf(),
        ensures
            r == self@.wrapping_check(*env, token_address, amount),
    {
        if token_address.is_none() {
            if amount != 0 {
                return Err(Error::InvalidAmountForNativeWrapping);
            }
            if !self.is_native_allowed {
                return Err(Error::NativeWrappingNotAllowed);
            }
        } else {
            if env.transferred_value != 0 {
                return Err(Error::InvalidValueSentForWrapping);
            }
            if !self.is_valid_address(token_address.unwrap()) {
                return Err(Error::InvalidTokenAddress);
            }
        }
        if !self.is_valid_amount(amount) {
            return Err(Error::InvalidTokenAmount);
        }
        Ok(())
    }

    /// Checks to determine if it's safe to unwrap
    /// # Arguments
    ///
    /// * `token_address` - Is the address for unwrapping,
    /// * `amount` - Is the amount for unwrapping.
    pub fn is_valid_unwrapping(&self, env: &CallEnv, token_address: Option<AccountId>, amount: Balance) -> (r:
        Result<(), Error>)
        requires
            self.wf(),
        ensures
            r == self@.unwrapping_check(*env, token_address, amount),
    {
        if token_address.is_none() {
            if amount > env.balance {
                return Err(Error::InsufficientNativeBalance);
            }
            if !self.is_native_allowed {
                return Err(Error::NativeUnwrappingNotAllowed);
            }
        } else {
            if amount > self.psp22.balance_of(&env.account_id) {
                return Err(Error::InsufficientPSP22Balance);
            }
            if !self.is_address_historically_valid(token_address.unwrap()) {
                return Err(Error::InvalidHistoricalTokenAddress);
            }
        }
        Ok(())
    }

    /// Determines if token address is a valid one: added, and not removed since.
    /// # Arguments
    ///
    /// * `token_address` - The token address to chcek
    pub fn is_valid_address(&self, token_address: AccountId) -> (r: bool)
        requires
            self.wf(),
        ensures
            r == is_listed(self@.valid, token_address),
    {
        match self.valid.get(&token_address) {
            Some(v) => v,
            None => false,
        }
    }

    /// Determines if token address is historically valid: added at some point.
    /// # Arguments
    ///
    /// * `token_address` - The token address to check
    pub fn is_address_historically_valid(&self, token_address: AccountId) -> (r: bool)
        requires
            self.wf(),
        ensures
            r == is_listed(self@.historically_valid, token_address),
    {
        match self.historically_valid.get(&token_address) {
            Some(v) => v,
            None => false,
        }
    }

    /// Determines if amount is valid for wrapping
    /// # Arguments
    ///
    /// * `amount` - The amount
    pub fn is_valid_amount(&self, amount: Balance) -> (r: bool)
        ensures
            r == self@.amount_within_limit(amount),
    {
        let amount_add_supply = amount.saturating_add(self.psp22.total_supply());
        amount_add_supply <= self.wrapping_limit
    }

    /// Calculates the fee to be sent to fee recipient
    /// # Arguments
    ///
    /// * `amount_to_wrap` - The amount to wrap
    pub fn get_fee_from_amount(&self, amount_to_wrap: Balance) -> (r: Balance)
        ensures
            r == self@.fee_from_amount(amount_to_wrap),
    {
        let product = match amount_to_wrap.checked_mul(self.fee_percentage) {
            Some(p) => p,
            None => Balance::MAX,
        };
        product / 100
    }

    /// Determine if an account id/address is a governor
    ///
    /// # Arguments
    ///
    /// * `address` - The address to check
    pub fn is_governor(&self, address: AccountId) -> (r: Result<(), Error>)
        ensures
            r == self@.governor_check(address),
    {
        if !self.governor.same_key(&address) {
            return Err(Error::Unauthorize);
        }
        Ok(())
    }
}

impl GovernedTokenWrapper {
    /// Overwrites the contract's own wrapped-token balance with `amount`;
    /// the total supply is left as it is.
    pub fn update_psp22_contract_balance(&mut self, env: &CallEnv, amount: Balance)
        requires
            old(self).wf(),
        ensures
            final(self).wf(),
            final(self)@ == old(self)@.with_ledger(
                old(self)@.ledger.with_balance(env.account_id, amount),
            ),
    {
        let account_id = env.account_id;
        self.psp22.set_balance(account_id, amount);
    }

    /// Moves `amount` of the governor's wrapped tokens to the contract,
    /// spending the caller's allowance; a failure is `TransferError` and
    /// changes nothing.
    pub fn transfer_psp22_to_contract(&mut self, env: &CallEnv, hooks: &mut ReceiverHooks, amount: Balance) -> (r:
        Result<(), Error>)
        requires
            old(self).wf(),
            !old(self)@.ledger.transfer_from_overflows(
                env.caller,
                old(self)@.governor,
                env.account_id,
                amount,
            ),
        ensures
            final(self).wf(),
            ({
                let (moved, after) = old(self)@.ledger.transfer_from_result(
                    env.caller,
                    old(self)@.governor,
                    env.account_id,
                    amount,
                    old(hooks).next_answer(),
                );
                &&& r == if moved is Err {
                    Err(Error::TransferError)
                } else {
                    Ok(())
                }
                &&& final(self)@ == if moved is Err {
                    old(self)@
                } else {
                    old(self)@.with_ledger(after)
                }
                &&& final(hooks).answers() == old(hooks).answers()
                &&& final(hooks).asked() == old(hooks).asked()
                    + old(self)@.ledger.transfer_from_questions(
                    env.caller,
                    old(self)@.governor,
                    env.account_id,
                    amount,
                )
            }),
    {
        let account_id = env.account_id;
        let mut ledger = self.psp22.duplicate();
        if ledger.transfer_from(env.caller, self.governor, account_id, amount, hooks).is_err() {
            return Err(Error::TransferError);
        }
        self.psp22 = ledger;
        Ok(())
    }

    /// Returns the contract's own wrapped-token balance.
    pub fn psp22_contract_balance(&self, env: &CallEnv) -> (r: Balance)
        requires
            self.wf(),
        ensures
            r == self@.ledger.balance(env.account_id),
    {
        self.psp22.balance_of(&env.account_id)
    }

    /// Returns the contract's native balance.
    pub fn native_contract_balance(&self, env: &CallEnv) -> (r: Balance)
        ensures
            r == env.balance,
    {
        env.balance
    }

    /// Returns the contract's own account.
    pub fn native_contract_account_id(&self, env: &CallEnv) -> (r: AccountId)
        ensures
            r == env.account_id,
    {
        env.account_id
    }

    /// sets the psp22 allowance for the spender(spend on behalf of owner):
    /// raises the caller's allowance to `spender` by `amount`; a failure is
    /// `PSP22AllowanceError` and changes nothing.
    pub fn set_psp22_allowance(&mut self, env: &CallEnv, spender: AccountId, amount: Balance) -> (r:
        Result<(), Error>)
        requires
            old(self).wf(),
            old(self)@.ledger.allowance(env.caller, spender) + amount <= Balance::MAX,
        ensures
            final(self).wf(),
            ({
                let (raised, after) = old(self)@.ledger.approve_result(
                    env.caller,
                    spender,
                    (old(self)@.ledger.allowance(env.caller, spender) + amount) as Balance,
                );
                &&& final(self)@ == old(self)@.with_ledger(after)
                &&& r == if raised is Err {
                    Err(Error::PSP22AllowanceError)
                } else {
                    Ok(())
                }
            }),
    {
        if self.psp22.increase_allowance(env.caller, spender, amount).is_err() {
            return Err(Error::PSP22AllowanceError);
        }
        Ok(())
    }

    /// Sets the allowance of `spender` over `owner`'s wrapped tokens to `amount`.
    pub fn set_psp22_allowance_for_owner(&mut self, owner: AccountId, spender: AccountId, amount: Balance) -> (r:
        Result<(), Error>)
        requires
            old(self).wf(),
        ensures
            final(self).wf(),
            r == Ok::<(), Error>(()),
            final(self)@ == old(self)@.with_ledger(old(self)@.ledger.approved(owner, spender, amount)),
    {
        self.psp22.set_allowance(owner, spender, amount);
        Ok(())
    }

    /// Returns the allowance of `spender` over `owner`'s wrapped tokens.
    pub fn get_psp22_allowance(&self, owner: AccountId, spender: AccountId) -> (r: Balance)
        requires
            self.wf(),
        ensures
            r == self@.ledger.allowance(owner, spender),
    {
        self.psp22.allowance(&owner, &spender)
    }

    /// The caller sends `amount` of its wrapped tokens to `account_id`; a
    /// failure is `TransferError` and changes nothing.
    pub fn transfer_psp22(&mut self, env: &CallEnv, hooks: &mut ReceiverHooks, account_id: AccountId, amount: Balance) -> (r:
        Result<(), Error>)
        requires
            old(self).wf(),
            !old(self)@.ledger.transfer_overflows(env.caller, account_id, amount),
        ensures
            final(self).wf(),
            ({
                let (sent, after) = old(self)@.ledger.transfer_result(
                    env.caller,
                    account_id,
                    amount,
                    old(hooks).next_answer(),
                );
                &&& r == if sent is Err {
                    Err(Error::TransferError)
                } else {
                    Ok(())
                }
                &&& final(self)@ == if sent is Err {
                    old(self)@
                } else {
                    old(self)@.with_ledger(after)
                }
                &&& final(hooks).answers() == old(hooks).answers()
                &&& final(hooks).asked() == old(hooks).asked()
                    + old(self)@.ledger.transfer_questions(env.caller, env.caller, account_id, amount)
            }),
    {
        let mut ledger = self.psp22.duplicate();
        if ledger.transfer(env.caller, account_id, amount, hooks).is_err() {
            return Err(Error::TransferError);
        }
        self.psp22 = ledger;
        Ok(())
    }

    /// Sends `amount` of the contract's native funds to `account_id`: the
    /// message returns `Ok(())`, or `TransferError` if the chain refuses.
    pub fn transfer_native(&self, account_id: AccountId, amount: Balance) -> (r: NativeTransfer)
        ensures
            r == (NativeTransfer {
                to: account_id,
                amount,
                on_refusal: Refusal::Reported(Error::TransferError),
            }),
    {
        NativeTransfer { to: account_id, amount, on_refusal: Refusal::Reported(Error::TransferError) }
    }

    /// Removes the contract: returns the account that the chain pays the
    /// contract's remaining native funds to, the caller.
    pub fn kill_contract(&self, env: &CallEnv) -> (beneficiary: AccountId)
        ensures
            beneficiary == env.caller,
    {
        env.caller
    }

    /// The wrapped-token ledger.
    pub fn psp22(&self) -> (r: &Psp22Data)
        requires
            self.wf(),
        ensures
            r.wf(),
            r@ == self@.ledger,
    {
        &self.psp22
    }

    /// Whether a wrap of `amount` on behalf of `sender` for `mint_for` keeps
    /// every balance and the supply within bounds (what `wrap`, `wrap_for`
    /// and `wrap_for_and_send_to` ask of their callers).
    pub fn wrap_fits(
        &self,
        env: &CallEnv,
        hooks: &ReceiverHooks,
        token_address: Option<AccountId>,
        sender: AccountId,
        mint_for: AccountId,
        amount: Balance,
    ) -> (r: bool)
        requires
            self.wf(),
        ensures
            r == !self@.wrap_overflows(
                *env,
                hooks.answers(),
                hooks.asked().len() as int,
                token_address,
                sender,
                mint_for,
                amount,
            ),
    {
        if self.is_valid_wrapping(env, token_address, amount).is_err() {
            return true;
        }
        let amount_to_use = if token_address.is_none() {
            env.transferred_value
        } else {
            amount
        };
        if !self.is_valid_amount(amount_to_use) {
            return true;
        }
        let cost_to_wrap = self.get_fee_from_amount(amount_to_use);
        let leftover = amount_to_use.saturating_sub(cost_to_wrap);
        let mut ledger = self.psp22.duplicate();
        let mut probe = hooks.duplicate();
        if token_address.is_none() {
            return ledger.mint_fits(&mint_for, leftover);
        }
        if !ledger.transfer_from_fits(&env.caller, &sender, &env.account_id, leftover) {
            return false;
        }
        if ledger.transfer_from(env.caller, sender, env.account_id, leftover, &mut probe).is_err() {
            return true;
        }
        if !ledger.transfer_from_fits(&env.caller, &sender, &self.fee_recipient, cost_to_wrap) {
            return false;
        }
        if ledger.transfer_from(env.caller, sender, self.fee_recipient, cost_to_wrap, &mut probe).is_err() {
            return true;
        }
        ledger.mint_fits(&mint_for, leftover)
    }

    /// Whether an unwrap of `amount` from `burn_for` to `sender` keeps the
    /// supply and every balance within bounds (what `unwrap`,
    /// `unwrap_and_send_to` and `unwrap_for` ask of their callers).
    pub fn unwrap_fits(
        &self,
        env: &CallEnv,
        token_address: Option<AccountId>,
        sender: AccountId,
        burn_for: AccountId,
        amount: Balance,
    ) -> (r: bool)
        requires
            self.wf(),
        ensures
            r == !self@.unwrap_overflows(*env, token_address, sender, burn_for, amount),
    {
        if self.is_valid_unwrapping(env, token_address, amount).is_err() {
            return true;
        }
        if !self.psp22.burn_fits(&burn_for, amount) {
            return false;
        }
        if token_address.is_none() {
            return true;
        }
        let mut ledger = self.psp22.duplicate();
        if ledger.burn_from(burn_for, amount).is_err() {
            return true;
        }
        ledger.transfer_fits(&env.account_id, &sender, amount)
    }
}

impl GovernedTokenWrapper {
    /// The wrapped token's name.
    pub fn token_name(&self) -> (r: Option<String>)
        ensures
            string_view(r) == self@.name,
    {
        match &self.name {
            Some(n) => Some(n.clone()),
            None => None,
        }
    }

    /// The wrapped token's symbol.
    pub fn token_symbol(&self) -> (r: Option<String>)
        ensures
            string_view(r) == self@.symbol,
    {
        match &self.symbol {
            Some(n) => Some(n.clone()),
            None => None,
        }
    }

    /// The wrapped token's decimals.
    pub fn token_decimals(&self) -> (r: u8)
        ensures
            r == self@.decimals,
    {
        self.decimals
    }

    /// The wrapped-token balance of `owner`.
    pub fn balance_of(&self, owner: AccountId) -> (r: Balance)
        requires
            self.wf(),
        ensures
            r == self@.ledger.balance(owner),
    {
        self.psp22.balance_of(&owner)
    }

    /// How much of `owner`'s wrapped tokens `spender` may move.
    pub fn allowance(&self, owner: AccountId, spender: AccountId) -> (r: Balance)
        requires
            self.wf(),
        ensures
            r == self@.ledger.allowance(owner, spender),
    {
        self.psp22.allowance(&owner, &spender)
    }

    /// The caller sends `value` of its wrapped tokens to `to`; a failure
    /// changes nothing.
    pub fn transfer(&mut self, env: &CallEnv, hooks: &mut ReceiverHooks, to: AccountId, value: Balance) -> (r:
        Result<(), Psp22Error>)
        requires
            old(self).wf(),
            !old(self)@.ledger.transfer_overflows(env.caller, to, value),
        ensures
            final(self).wf(),
            (r, final(self)@) == old(self)@.ledger_message(
                old(self)@.ledger.transfer_result(env.caller, to, value, old(hooks).next_answer()),
            ),
            final(hooks).answers() == old(hooks).answers(),
            final(hooks).asked() == old(hooks).asked() + old(self)@.ledger.transfer_questions(
                env.caller,
                env.caller,
                to,
                value,
            ),
    {
        let mut ledger = self.psp22.duplicate();
        let r = ledger.transfer(env.caller, to, value, hooks);
        if r.is_ok() {
            self.psp22 = ledger;
        }
        r
    }

    /// The caller moves `value` of `from`'s wrapped tokens to `to`, spending
    /// its allowance; a failure changes nothing.
    pub fn transfer_from(
        &mut self,
        env: &CallEnv,
        hooks: &mut ReceiverHooks,
        from: AccountId,
        to: AccountId,
        value: Balance,
    ) -> (r: Result<(), Psp22Error>)
        requires
            old(self).wf(),
            !old(self)@.ledger.transfer_from_overflows(env.caller, from, to, value),
        ensures
            final(self).wf(),
            (r, final(self)@) == old(self)@.ledger_message(
                old(self)@.ledger.transfer_from_result(
                    env.caller,
                    from,
                    to,
                    value,
                    old(hooks).next_answer(),
                ),
            ),
            final(hooks).answers() == old(hooks).answers(),
            final(hooks).asked() == old(hooks).asked() + old(self)@.ledger.transfer_from_questions(
                env.caller,
                from,
                to,
                value,
            ),
    {
        let mut ledger = self.psp22.duplicate();
        let r = ledger.transfer_from(env.caller, from, to, value, hooks);
        if r.is_ok() {
            self.psp22 = ledger;
        }
        r
    }

    /// The caller allows `spender` to move `value` of its wrapped tokens.
    pub fn approve(&mut self, env: &CallEnv, spender: AccountId, value: Balance) -> (r: Result<(), Psp22Error>)
        requires
            old(self).wf(),
        ensures
            final(self).wf(),
            (r, final(self)@) == old(self)@.ledger_message(
                old(self)@.ledger.approve_result(env.caller, spender, value),
            ),
    {
        self.psp22.approve_from_to(env.caller, spender, value)
    }

    /// The caller raises the allowance of `spender` by `delta_value`.
    pub fn increase_allowance(&mut self, env: &CallEnv, spender: AccountId, delta_value: Balance) -> (r:
        Result<(), Psp22Error>)
        requires
            old(self).wf(),
            old(self)@.ledger.allowance(env.caller, spender) + delta_value <= Balance::MAX,
        ensures
            final(self).wf(),
            (r, final(self)@) == old(self)@.ledger_message(
                old(self)@.ledger.approve_result(
                    env.caller,
                    spender,
                    (old(self)@.ledger.allowance(env.caller, spender) + delta_value) as Balance,
                ),
            ),
    {
        self.psp22.increase_allowance(env.caller, spender, delta_value)
    }

    /// The caller lowers the allowance of `spender` by `delta_value`,
    /// refusing to go below zero.
    pub fn decrease_allowance(&mut self, env: &CallEnv, spender: AccountId, delta_value: Balance) -> (r:
        Result<(), Psp22Error>)
        requires
            old(self).wf(),
        ensures
            final(self).wf(),
            (r, final(self)@) == (if old(self)@.ledger.allowance(env.caller, spender) < delta_value {
                (Err(Psp22Error::InsufficientAllowance), old(self)@)
            } else {
                old(self)@.ledger_message(
                    old(self)@.ledger.approve_result(
                        env.caller,
                        spender,
                        (old(self)@.ledger.allowance(env.caller, spender) - delta_value) as Balance,
                    ),
                )
            }),
    {
        self.psp22.decrease_allowance(env.caller, spender, delta_value)
    }

    /// Mints `amount` new wrapped tokens for `account`.
    pub fn mint(&mut self, account: AccountId, amount: Balance) -> (r: Result<(), Psp22Error>)
        requires
            old(self).wf(),
            !old(self)@.ledger.mint_overflows(account, amount),
        ensures
            final(self).wf(),
            (r, final(self)@) == old(self)@.ledger_message(old(self)@.ledger.mint_result(account, amount)),
    {
        self.psp22.mint(account, amount)
    }

    /// Burns `amount` of `account`'s wrapped tokens.
    pub fn burn(&mut self, account: AccountId, amount: Balance) -> (r: Result<(), Psp22Error>)
        requires
            old(self).wf(),
            !old(self)@.ledger.burn_underflows(account, amount),
        ensures
            final(self).wf(),
            (r, final(self)@) == old(self)@.ledger_message(old(self)@.ledger.burn_result(account, amount)),
    {
        self.psp22.burn_from(account, amount)
    }

    /// Mints `amount` wrapped tokens for `account` once the underlying token
    /// has moved `amount` from the caller to the contract: `deposited` is the
    /// underlying token's answer to that transfer, and a refusal is returned
    /// and changes nothing.
    pub fn deposit_for(&mut self, account: AccountId, amount: Balance, deposited: Result<(), Psp22Error>) -> (r:
        Result<(), Psp22Error>)
        requires
            old(self).wf(),
            deposited is Ok ==> !old(self)@.ledger.mint_overflows(account, amount),
        ensures
            final(self).wf(),
            (r, final(self)@) == match deposited {
                Err(e) => (Err(e), old(self)@),
                Ok(()) => old(self)@.ledger_message(old(self)@.ledger.mint_result(account, amount)),
            },
    {
        match deposited {
            Err(e) => Err(e),
            Ok(()) => self.psp22.mint(account, amount),
        }
    }

    /// Burns `amount` of the caller's wrapped tokens and returns the transfer
    /// of `amount` underlying tokens to `account` that the underlying token
    /// is then asked to make; a refused burn is returned and changes nothing.
    pub fn withdraw_to(&mut self, env: &CallEnv, account: AccountId, amount: Balance) -> (r: Result<
        UnderlyingTransfer,
        Psp22Error,
    >)
        requires
            old(self).wf(),
            !old(self)@.ledger.burn_underflows(env.caller, amount),
        ensures
            final(self).wf(),
            ({
                let (burnt, after) = old(self)@.ledger.burn_result(env.caller, amount);
                match burnt {
                    Err(e) => r == Err::<UnderlyingTransfer, Psp22Error>(e) && final(self)@ == old(
                        self,
                    )@,
                    Ok(()) => r == Ok::<UnderlyingTransfer, Psp22Error>(
                        UnderlyingTransfer { to: account, amount },
                    ) && final(self)@ == old(self)@.with_ledger(after),
                }
            }),
    {
        match self.psp22.burn_from(env.caller, amount) {
            Err(e) => Err(e),
            Ok(()) => Ok(UnderlyingTransfer { to: account, amount }),
        }
    }
}

} // verus!
