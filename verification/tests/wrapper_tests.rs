use governed_token_wrapper::account::AccountId;
use governed_token_wrapper::psp22::{HookQuestion, Psp22Data, Psp22Error, ReceiverHooks};
use governed_token_wrapper::wrapper::{
    conclude, CallEnv, Error, GovernedTokenWrapper, NativeTransfer, Outcome, Refusal,
    UnderlyingTransfer, Wrap,
};

fn acct(n: u8) -> AccountId {
    [n; 32]
}

const GOVERNOR: u8 = 1;
const FEE_RECIPIENT: u8 = 2;
const CONTRACT: u8 = 3;
const ALICE: u8 = 4;
const BOB: u8 = 5;
const TOKEN: u8 = 9;

fn env(caller: u8, transferred_value: u128, balance: u128) -> CallEnv {
    CallEnv { caller: acct(caller), account_id: acct(CONTRACT), transferred_value, balance }
}

fn wrapper(fee_percentage: u128, native: bool, limit: u128) -> GovernedTokenWrapper {
    GovernedTokenWrapper::new(
        Some(String::from("Webb Wrapped")),
        Some(String::from("WW")),
        18,
        acct(GOVERNOR),
        acct(FEE_RECIPIENT),
        fee_percentage,
        native,
        limit,
        0,
        acct(TOKEN),
        1000,
        1000,
    )
}

fn listed(fee_percentage: u128, native: bool, limit: u128) -> GovernedTokenWrapper {
    let mut w = wrapper(fee_percentage, native, limit);
    assert_eq!(w.add_token_address(&env(GOVERNOR, 0, 0), acct(TOKEN), 1), Ok(()));
    w
}

fn accept() -> ReceiverHooks {
    ReceiverHooks::accept_all()
}

#[test]
fn new_sets_every_setting() {
    let w = wrapper(10, true, 1_000_000);
    assert_eq!(w.governor(), acct(GOVERNOR));
    assert_eq!(w.fee_recipient(), acct(FEE_RECIPIENT));
    assert_eq!(w.fee_percentage(), 10);
    assert!(w.is_native_allowed());
    assert_eq!(w.wrapping_limit(), 1_000_000);
    assert_eq!(w.nonce(), 0);
    assert_eq!(w.name(), Some(String::from("Webb Wrapped")));
    assert_eq!(w.token_name(), Some(String::from("Webb Wrapped")));
    assert_eq!(w.token_symbol(), Some(String::from("WW")));
    assert_eq!(w.token_decimals(), 18);
    assert_eq!(w.total_supply(), 1000);
    assert_eq!(w.psp22_balance(acct(GOVERNOR)), 1000);
    assert_eq!(w.balance_of(acct(GOVERNOR)), 1000);
    assert_eq!(w.psp22_balance(acct(ALICE)), 0);
    assert!(!w.is_valid_address(acct(TOKEN)));
    assert!(!w.is_valid_token_address(acct(TOKEN)));
}

#[test]
fn fee_is_a_percentage_rounded_down() {
    let w = wrapper(10, true, u128::MAX);
    assert_eq!(w.get_fee_from_amount(1000), 100);
    assert_eq!(w.get_fee_from_amount(1009), 100);
    assert_eq!(w.get_fee_from_amount(0), 0);
    let w = wrapper(3, true, u128::MAX);
    assert_eq!(w.get_fee_from_amount(250), 7);
}

#[test]
fn fee_product_saturates() {
    let w = wrapper(2, true, u128::MAX);
    assert_eq!(w.get_fee_from_amount(u128::MAX), u128::MAX / 100);
}

#[test]
fn amount_within_limit_saturates() {
    let w = wrapper(0, true, 1500);
    assert!(w.is_valid_amount(500));
    assert!(!w.is_valid_amount(501));
    let w = wrapper(0, true, u128::MAX);
    assert!(w.is_valid_amount(u128::MAX));
}

#[test]
fn wrapping_check_reports_each_error() {
    let mut w = wrapper(0, false, 2000);
    let e = env(ALICE, 0, 0);
    assert_eq!(w.is_valid_wrapping(&e, None, 5), Err(Error::InvalidAmountForNativeWrapping));
    assert_eq!(w.is_valid_wrapping(&e, None, 0), Err(Error::NativeWrappingNotAllowed));
    assert_eq!(w.is_valid_wrapping(&env(ALICE, 7, 0), Some(acct(TOKEN)), 5), Err(Error::InvalidValueSentForWrapping));
    assert_eq!(w.is_valid_wrapping(&e, Some(acct(TOKEN)), 5), Err(Error::InvalidTokenAddress));
    assert_eq!(w.add_token_address(&env(GOVERNOR, 0, 0), acct(TOKEN), 1), Ok(()));
    assert_eq!(w.is_valid_wrapping(&e, Some(acct(TOKEN)), 1001), Err(Error::InvalidTokenAmount));
    assert_eq!(w.is_valid_wrapping(&e, Some(acct(TOKEN)), 1000), Ok(()));
    w.update_config(&env(GOVERNOR, 0, 0), None, Some(true), None, None, None);
    assert_eq!(w.is_valid_wrapping(&e, None, 0), Ok(()));
}

#[test]
fn removed_token_fails_the_wrapping_check() {
    let mut w = listed(0, true, 2000);
    assert_eq!(w.remove_token_address(&env(GOVERNOR, 0, 0), acct(TOKEN), 2), Ok(()));
    assert_eq!(w.is_valid_wrapping(&env(ALICE, 0, 0), Some(acct(TOKEN)), 1), Err(Error::InvalidTokenAddress));
}

#[test]
fn unwrapping_check_reports_each_error() {
    let mut w = wrapper(0, false, 2000);
    assert_eq!(w.is_valid_unwrapping(&env(ALICE, 0, 9), None, 10), Err(Error::InsufficientNativeBalance));
    assert_eq!(w.is_valid_unwrapping(&env(ALICE, 0, 10), None, 10), Err(Error::NativeUnwrappingNotAllowed));
    assert_eq!(w.is_valid_unwrapping(&env(ALICE, 0, 0), Some(acct(TOKEN)), 1), Err(Error::InsufficientPSP22Balance));
    w.update_psp22_contract_balance(&env(ALICE, 0, 0), 50);
    assert_eq!(w.is_valid_unwrapping(&env(ALICE, 0, 0), Some(acct(TOKEN)), 51), Err(Error::InsufficientPSP22Balance));
    assert_eq!(w.is_valid_unwrapping(&env(ALICE, 0, 0), Some(acct(TOKEN)), 50), Err(Error::InvalidHistoricalTokenAddress));
    assert_eq!(w.add_token_address(&env(GOVERNOR, 0, 0), acct(TOKEN), 1), Ok(()));
    assert_eq!(w.is_valid_unwrapping(&env(ALICE, 0, 0), Some(acct(TOKEN)), 50), Ok(()));
    assert_eq!(w.remove_token_address(&env(GOVERNOR, 0, 0), acct(TOKEN), 2), Ok(()));
    assert_eq!(w.is_valid_unwrapping(&env(ALICE, 0, 0), Some(acct(TOKEN)), 50), Ok(()));
    w.update_config(&env(GOVERNOR, 0, 0), None, Some(true), None, None, None);
    assert_eq!(w.is_valid_unwrapping(&env(ALICE, 0, 10), None, 10), Ok(()));
}

#[test]
fn unwrapping_the_whole_balance() {
    let c = GovernedTokenWrapper::new(None, None, 0, acct(GOVERNOR), acct(FEE_RECIPIENT), 0, true, 1000, 0, acct(TOKEN), 0, 0);
    let e = env(ALICE, 0, 100);
    assert_eq!(c.is_valid_unwrapping(&e, None, 100), Ok(()));
    assert_eq!(c.is_valid_unwrapping(&e, None, 99), Ok(()));
    assert_eq!(c.is_valid_unwrapping(&e, None, 101), Err(Error::InsufficientNativeBalance));
    let mut w = listed(0, true, u128::MAX);
    w.update_psp22_contract_balance(&env(GOVERNOR, 0, 0), 100);
    assert_eq!(
        w.unwrap_and_send_to(&env(GOVERNOR, 0, 0), &mut accept(), Some(acct(TOKEN)), 100, acct(BOB)),
        Ok(None)
    );
    assert_eq!(w.psp22_balance(acct(CONTRACT)), 0);
    assert_eq!(w.psp22_balance(acct(BOB)), 100);
}

#[test]
fn governor_check() {
    let w = wrapper(0, true, 0);
    assert_eq!(w.is_governor(acct(GOVERNOR)), Ok(()));
    assert_eq!(w.is_governor(acct(ALICE)), Err(Error::Unauthorize));
}

#[test]
fn add_token_address_follows_the_nonce() {
    let mut w = wrapper(0, true, 0);
    let g = env(GOVERNOR, 0, 0);
    assert_eq!(w.add_token_address(&g, acct(TOKEN), 2), Err(Error::NonceMustIncrementByOne));
    assert_eq!(w.nonce(), 0);
    assert_eq!(w.add_token_address(&g, acct(TOKEN), 1), Ok(()));
    assert_eq!(w.nonce(), 1);
    assert!(w.is_valid_address(acct(TOKEN)));
    assert!(w.is_address_historically_valid(acct(TOKEN)));
    assert!(w.is_valid_token_address(acct(TOKEN)));
    assert_eq!(w.add_token_address(&g, acct(TOKEN), 2), Err(Error::TokenAddressAlreadyExists));
    assert_eq!(w.add_token_address(&g, acct(BOB), 0), Err(Error::InvalidNonce));
    assert_eq!(w.nonce(), 1);
}

#[test]
fn only_the_governor_may_propose_tokens() {
    let mut w = wrapper(0, true, 0);
    assert_eq!(w.add_token_address(&env(ALICE, 0, 0), acct(TOKEN), 1), Err(Error::Unauthorize));
    assert_eq!(w.nonce(), 0);
    assert!(!w.is_valid_token_address(acct(TOKEN)));
    assert_eq!(w.add_token_address(&env(GOVERNOR, 0, 0), acct(TOKEN), 1), Ok(()));
    assert_eq!(w.remove_token_address(&env(ALICE, 0, 0), acct(TOKEN), 2), Err(Error::Unauthorize));
    assert!(w.is_valid_token_address(acct(TOKEN)));
    assert_eq!(w.nonce(), 1);
}

#[test]
fn remove_then_add_again() {
    let mut w = wrapper(0, true, 0);
    let g = env(GOVERNOR, 0, 0);
    assert_eq!(w.remove_token_address(&g, acct(TOKEN), 1), Err(Error::InvalidTokenAddress));
    assert_eq!(w.add_token_address(&g, acct(TOKEN), 1), Ok(()));
    assert_eq!(w.remove_token_address(&g, acct(TOKEN), 0), Err(Error::InvalidNonce));
    assert_eq!(w.remove_token_address(&g, acct(TOKEN), 3), Err(Error::NonceMustIncrementByOne));
    assert_eq!(w.remove_token_address(&g, acct(TOKEN), 2), Ok(()));
    assert_eq!(w.nonce(), 2);
    assert!(!w.is_valid_token_address(acct(TOKEN)));
    assert!(!w.is_valid_address(acct(TOKEN)));
    assert!(w.is_address_historically_valid(acct(TOKEN)));
    assert_eq!(w.remove_token_address(&g, acct(TOKEN), 3), Err(Error::InvalidTokenAddress));
    assert_eq!(w.nonce(), 2);
    assert_eq!(w.add_token_address(&g, acct(TOKEN), 3), Ok(()));
    assert!(w.is_valid_token_address(acct(TOKEN)));
    assert_eq!(w.nonce(), 3);
}

#[test]
fn update_config_sets_what_the_governor_offers() {
    let mut w = wrapper(10, true, 100);
    let g = env(GOVERNOR, 0, 0);
    w.update_config(&env(ALICE, 0, 0), Some(acct(ALICE)), Some(false), Some(1), Some(99), Some(acct(ALICE)));
    assert_eq!(w.governor(), acct(GOVERNOR));
    assert!(w.is_native_allowed());
    assert_eq!(w.wrapping_limit(), 100);
    assert_eq!(w.fee_percentage(), 10);
    assert_eq!(w.fee_recipient(), acct(FEE_RECIPIENT));
    w.update_config(&g, None, Some(false), None, Some(50), None);
    assert!(!w.is_native_allowed());
    assert_eq!(w.wrapping_limit(), 100);
    assert_eq!(w.fee_percentage(), 50);
    w.update_config(&g, Some(acct(BOB)), None, Some(7), None, Some(acct(ALICE)));
    assert_eq!(w.governor(), acct(BOB));
    assert_eq!(w.wrapping_limit(), 7);
    assert_eq!(w.fee_recipient(), acct(ALICE));
    w.update_config(&g, None, None, Some(8), None, None);
    assert_eq!(w.wrapping_limit(), 7);
}

#[test]
fn native_wrap_mints_leftover_and_pays_fee() {
    let mut w = wrapper(10, true, u128::MAX);
    let e = env(ALICE, 1000, 5000);
    let mut hooks = accept();
    assert!(w.wrap_fits(&e, &hooks, None, acct(ALICE), acct(ALICE), 0));
    let transfer = w.wrap(&e, &mut hooks, None, 0).unwrap();
    let fee = NativeTransfer { to: acct(FEE_RECIPIENT), amount: 100, on_refusal: Refusal::Reported(Error::TransferError) };
    assert_eq!(transfer, Some(fee));
    assert_eq!(w.psp22_balance(acct(ALICE)), 900);
    assert_eq!(w.total_supply(), 1900);
    assert_eq!(conclude(Ok(()), transfer, true), Outcome::Kept);
    assert_eq!(conclude(Ok(()), transfer, false), Outcome::Reverted(Error::TransferError));
    assert!(hooks.questions().is_empty());
}

#[test]
fn refused_wraps_change_nothing() {
    let mut w = wrapper(0, false, 1500);
    let mut hooks = accept();
    assert_eq!(w.wrap(&env(ALICE, 40, 0), &mut hooks, None, 3), Err(Error::InvalidAmountForNativeWrapping));
    assert_eq!(w.wrap(&env(ALICE, 40, 0), &mut hooks, None, 0), Err(Error::NativeWrappingNotAllowed));
    assert_eq!(
        w.wrap_for_and_send_to(&env(ALICE, 0, 0), &mut hooks, Some(acct(TOKEN)), acct(GOVERNOR), 5, acct(BOB)),
        Err(Error::InvalidTokenAddress)
    );
    assert_eq!(w.add_token_address(&env(GOVERNOR, 0, 0), acct(TOKEN), 1), Ok(()));
    assert_eq!(
        w.wrap_for_and_send_to(&env(ALICE, 9, 0), &mut hooks, Some(acct(TOKEN)), acct(GOVERNOR), 5, acct(BOB)),
        Err(Error::InvalidValueSentForWrapping)
    );
    assert_eq!(w.wrap(&env(GOVERNOR, 0, 0), &mut hooks, Some(acct(TOKEN)), 501), Err(Error::InvalidTokenAmount));
    assert_eq!(w.total_supply(), 1000);
    assert_eq!(w.psp22_balance(acct(GOVERNOR)), 1000);
    assert!(hooks.questions().is_empty());
}

#[test]
fn native_wrap_may_not_pass_the_limit() {
    let mut w = wrapper(0, true, 1500);
    let mut hooks = accept();
    assert_eq!(w.wrap(&env(ALICE, 501, 0), &mut hooks, None, 0), Err(Error::InvalidTokenAmount));
    assert_eq!(w.total_supply(), 1000);
    assert_eq!(w.wrap(&env(ALICE, 500, 0), &mut hooks, None, 0).map(|t| t.map(|t| t.amount)), Ok(Some(0)));
    assert_eq!(w.total_supply(), 1500);
}

#[test]
fn psp22_wrap_moves_fee_and_leftover() {
    let mut w = listed(10, true, u128::MAX);
    let mut hooks = accept();
    assert_eq!(w.set_psp22_allowance_for_owner(acct(GOVERNOR), acct(ALICE), 1000), Ok(()));
    let e = env(ALICE, 0, 0);
    let transfer = w.wrap_for_and_send_to(&e, &mut hooks, Some(acct(TOKEN)), acct(GOVERNOR), 500, acct(BOB));
    assert_eq!(transfer, Ok(None));
    assert_eq!(w.psp22_balance(acct(GOVERNOR)), 500);
    assert_eq!(w.psp22_balance(acct(CONTRACT)), 450);
    assert_eq!(w.psp22_balance(acct(FEE_RECIPIENT)), 50);
    assert_eq!(w.psp22_balance(acct(BOB)), 450);
    assert_eq!(w.total_supply(), 1450);
    assert_eq!(w.get_psp22_allowance(acct(GOVERNOR), acct(ALICE)), 500);
    assert_eq!(
        hooks.questions(),
        vec![
            HookQuestion { operator: acct(ALICE), from: acct(GOVERNOR), to: acct(CONTRACT), value: 450 },
            HookQuestion { operator: acct(ALICE), from: acct(GOVERNOR), to: acct(FEE_RECIPIENT), value: 50 },
        ]
    );
}

#[test]
fn failed_token_move_is_reported_and_undone() {
    let mut w = listed(10, true, u128::MAX);
    let mut hooks = accept();
    let e = env(GOVERNOR, 0, 0);
    // no allowance: the first move is refused
    assert_eq!(w.wrap(&e, &mut hooks, Some(acct(TOKEN)), 500), Err(Error::TransferError));
    assert_eq!(w.psp22_balance(acct(GOVERNOR)), 1000);
    assert_eq!(w.total_supply(), 1000);
    // the fee recipient's hook refuses: the leftover's move is undone too
    assert_eq!(w.set_psp22_allowance_for_owner(acct(GOVERNOR), acct(GOVERNOR), 1000), Ok(()));
    let mut hooks = ReceiverHooks::new(vec![true, false]);
    assert_eq!(w.wrap(&e, &mut hooks, Some(acct(TOKEN)), 100), Err(Error::TransferError));
    assert_eq!(hooks.questions().len(), 2);
    assert_eq!(w.psp22_balance(acct(CONTRACT)), 0);
    assert_eq!(w.psp22_balance(acct(GOVERNOR)), 1000);
    assert_eq!(w.get_psp22_allowance(acct(GOVERNOR), acct(GOVERNOR)), 1000);
    assert_eq!(w.total_supply(), 1000);
}

#[test]
fn do_wrap_keeps_partial_moves() {
    let mut w = wrapper(10, true, u128::MAX);
    assert_eq!(w.set_psp22_allowance_for_owner(acct(GOVERNOR), acct(GOVERNOR), 1000), Ok(()));
    let mut hooks = ReceiverHooks::new(vec![true, false]);
    let e = env(GOVERNOR, 0, 0);
    assert_eq!(
        w.do_wrap(&e, &mut hooks, Some(acct(TOKEN)), acct(GOVERNOR), acct(GOVERNOR), 10, 90),
        (Err(Error::TransferError), None)
    );
    assert_eq!(w.psp22_balance(acct(CONTRACT)), 90);
    assert_eq!(w.psp22_balance(acct(GOVERNOR)), 900);
}

#[test]
fn wrap_for_emits_the_wrap_event() {
    let mut w = wrapper(0, true, u128::MAX);
    let e = env(ALICE, 30, 0);
    let (event, transfer) = w.wrap_for(&e, &mut accept(), None, acct(BOB), 0).unwrap();
    assert_eq!(event, Wrap { sender: Some(acct(BOB)), mint_for: Some(acct(BOB)), amount: 0 });
    assert_eq!(
        transfer,
        Some(NativeTransfer { to: acct(FEE_RECIPIENT), amount: 0, on_refusal: Refusal::Reported(Error::TransferError) })
    );
    assert_eq!(w.psp22_balance(acct(BOB)), 30);
    assert_eq!(w.wrap_for(&e, &mut accept(), None, acct(BOB), 7), Err(Error::InvalidAmountForNativeWrapping));
}

#[test]
fn native_unwrap_burns_and_pays() {
    let mut w = wrapper(0, true, u128::MAX);
    let e = env(GOVERNOR, 0, 10_000);
    assert!(w.unwrap_fits(&e, None, acct(GOVERNOR), acct(GOVERNOR), 300));
    let transfer = w.unwrap(&e, &mut accept(), None, 300).unwrap();
    assert_eq!(transfer, Some(NativeTransfer { to: acct(GOVERNOR), amount: 300, on_refusal: Refusal::Trap }));
    assert_eq!(w.psp22_balance(acct(GOVERNOR)), 700);
    assert_eq!(w.total_supply(), 700);
    assert_eq!(conclude(Ok(()), transfer, false), Outcome::Trapped);
    assert_eq!(conclude(Ok(()), transfer, true), Outcome::Kept);
}

#[test]
fn native_unwrap_refused_when_disallowed() {
    let mut w = wrapper(0, false, u128::MAX);
    assert_eq!(w.unwrap(&env(GOVERNOR, 0, 10_000), &mut accept(), None, 300), Err(Error::NativeUnwrappingNotAllowed));
    assert_eq!(w.total_supply(), 1000);
}

#[test]
fn unwrap_beyond_balance_pays_nothing() {
    let mut w = wrapper(0, true, u128::MAX);
    assert_eq!(w.unwrap(&env(ALICE, 0, 1_000_000), &mut accept(), None, 5), Err(Error::TransferError));
    assert_eq!(w.total_supply(), 1000);
}

#[test]
fn psp22_unwrap_pays_from_the_contract() {
    let mut w = listed(0, true, u128::MAX);
    w.update_psp22_contract_balance(&env(GOVERNOR, 0, 0), 500);
    let e = env(GOVERNOR, 0, 0);
    let mut hooks = accept();
    assert_eq!(w.unwrap_and_send_to(&e, &mut hooks, Some(acct(TOKEN)), 100, acct(BOB)), Ok(None));
    assert_eq!(w.psp22_balance(acct(GOVERNOR)), 900);
    assert_eq!(w.psp22_balance(acct(CONTRACT)), 400);
    assert_eq!(w.psp22_balance(acct(BOB)), 100);
    assert_eq!(w.total_supply(), 900);
    assert_eq!(
        hooks.questions(),
        vec![HookQuestion { operator: acct(GOVERNOR), from: acct(CONTRACT), to: acct(BOB), value: 100 }]
    );
}

#[test]
fn psp22_unwrap_refused_payment_is_undone() {
    let mut w = listed(0, true, u128::MAX);
    w.update_psp22_contract_balance(&env(GOVERNOR, 0, 0), 500);
    let mut hooks = ReceiverHooks::new(vec![false]);
    assert_eq!(
        w.unwrap_for(&env(ALICE, 0, 0), &mut hooks, Some(acct(TOKEN)), 100, acct(GOVERNOR)),
        Err(Error::TransferError)
    );
    assert_eq!(w.psp22_balance(acct(GOVERNOR)), 1000);
    assert_eq!(w.psp22_balance(acct(CONTRACT)), 500);
    assert_eq!(w.total_supply(), 1000);
}

#[test]
fn unwrap_for_burns_from_the_sender() {
    let mut w = wrapper(0, true, u128::MAX);
    let transfer = w.unwrap_for(&env(ALICE, 0, 1_000_000), &mut accept(), None, 250, acct(GOVERNOR)).unwrap();
    assert_eq!(transfer, Some(NativeTransfer { to: acct(GOVERNOR), amount: 250, on_refusal: Refusal::Trap }));
    assert_eq!(w.psp22_balance(acct(GOVERNOR)), 750);
    assert_eq!(w.total_supply(), 750);
}

#[test]
fn transfer_psp22_reports_errors_and_undoes() {
    let mut w = wrapper(0, true, 0);
    let e = env(GOVERNOR, 0, 0);
    assert_eq!(w.transfer_psp22(&e, &mut accept(), acct(ALICE), 400), Ok(()));
    assert_eq!(w.psp22_balance(acct(ALICE)), 400);
    assert_eq!(w.psp22_balance(acct(GOVERNOR)), 600);
    assert_eq!(w.transfer_psp22(&e, &mut accept(), acct(ALICE), 601), Err(Error::TransferError));
    assert_eq!(w.transfer_psp22(&e, &mut ReceiverHooks::new(vec![false]), acct(ALICE), 1), Err(Error::TransferError));
    assert_eq!(w.transfer_psp22(&e, &mut accept(), acct(0), 1), Err(Error::TransferError));
    assert_eq!(w.psp22_balance(acct(GOVERNOR)), 600);
    assert_eq!(w.psp22_balance(acct(ALICE)), 400);
    assert_eq!(w.total_supply(), 1000);
}

#[test]
fn allowances_read_back() {
    let mut w = wrapper(0, true, 0);
    let e = env(ALICE, 0, 0);
    assert_eq!(w.set_psp22_allowance(&e, acct(BOB), 30), Ok(()));
    assert_eq!(w.set_psp22_allowance(&e, acct(BOB), 12), Ok(()));
    assert_eq!(w.get_psp22_allowance(acct(ALICE), acct(BOB)), 42);
    assert_eq!(w.allowance(acct(ALICE), acct(BOB)), 42);
    assert_eq!(w.set_psp22_allowance(&e, acct(0), 1), Err(Error::PSP22AllowanceError));
    assert_eq!(w.set_psp22_allowance_for_owner(acct(BOB), acct(ALICE), 9), Ok(()));
    assert_eq!(w.get_psp22_allowance(acct(BOB), acct(ALICE)), 9);
}

#[test]
fn transfer_psp22_to_contract_spends_allowance_only_on_success() {
    let mut w = wrapper(0, true, 0);
    let e = env(ALICE, 0, 0);
    assert_eq!(w.transfer_psp22_to_contract(&e, &mut accept(), 10), Err(Error::TransferError));
    assert_eq!(w.set_psp22_allowance_for_owner(acct(GOVERNOR), acct(ALICE), 25), Ok(()));
    assert_eq!(w.transfer_psp22_to_contract(&e, &mut ReceiverHooks::new(vec![false]), 10), Err(Error::TransferError));
    assert_eq!(w.get_psp22_allowance(acct(GOVERNOR), acct(ALICE)), 25);
    assert_eq!(w.transfer_psp22_to_contract(&e, &mut accept(), 10), Ok(()));
    assert_eq!(w.psp22_contract_balance(&e), 10);
    assert_eq!(w.psp22_balance(acct(GOVERNOR)), 990);
    assert_eq!(w.get_psp22_allowance(acct(GOVERNOR), acct(ALICE)), 15);
}

#[test]
fn contract_balance_is_overwritten() {
    let mut w = wrapper(0, true, 0);
    let e = env(ALICE, 0, 0);
    w.update_psp22_contract_balance(&e, 77);
    assert_eq!(w.psp22_contract_balance(&e), 77);
    assert_eq!(w.total_supply(), 1000);
}

#[test]
fn native_transfer_and_environment_reads() {
    let w = wrapper(0, true, 0);
    let e = env(ALICE, 0, 123);
    let t = w.transfer_native(acct(BOB), 40);
    assert_eq!(t, NativeTransfer { to: acct(BOB), amount: 40, on_refusal: Refusal::Reported(Error::TransferError) });
    assert_eq!(conclude(Ok(()), Some(t), true), Outcome::Kept);
    assert_eq!(conclude(Ok(()), Some(t), false), Outcome::Reverted(Error::TransferError));
    assert_eq!(conclude(Err(Error::InvalidNonce), None, true), Outcome::Reverted(Error::InvalidNonce));
    assert_eq!(w.native_contract_balance(&e), 123);
    assert_eq!(w.native_contract_account_id(&e), acct(CONTRACT));
    assert_eq!(w.kill_contract(&e), acct(ALICE));
}

#[test]
fn psp22_messages_revert_on_error() {
    let mut w = wrapper(0, true, 0);
    let g = env(GOVERNOR, 0, 0);
    let a = env(ALICE, 0, 0);
    assert_eq!(w.transfer(&g, &mut accept(), acct(ALICE), 100), Ok(()));
    assert_eq!(w.transfer(&g, &mut ReceiverHooks::new(vec![false]), acct(ALICE), 100), Err(Psp22Error::SafeTransferCheckFailed));
    assert_eq!(w.balance_of(acct(GOVERNOR)), 900);
    assert_eq!(w.approve(&g, acct(ALICE), 50), Ok(()));
    assert_eq!(w.transfer_from(&a, &mut accept(), acct(GOVERNOR), acct(BOB), 60), Err(Psp22Error::InsufficientAllowance));
    assert_eq!(w.transfer_from(&a, &mut ReceiverHooks::new(vec![false]), acct(GOVERNOR), acct(BOB), 20), Err(Psp22Error::SafeTransferCheckFailed));
    assert_eq!(w.allowance(acct(GOVERNOR), acct(ALICE)), 50);
    assert_eq!(w.transfer_from(&a, &mut accept(), acct(GOVERNOR), acct(BOB), 20), Ok(()));
    assert_eq!(w.allowance(acct(GOVERNOR), acct(ALICE)), 30);
    assert_eq!(w.balance_of(acct(BOB)), 20);
    assert_eq!(w.increase_allowance(&g, acct(ALICE), 5), Ok(()));
    assert_eq!(w.decrease_allowance(&g, acct(ALICE), 36), Err(Psp22Error::InsufficientAllowance));
    assert_eq!(w.decrease_allowance(&g, acct(ALICE), 35), Ok(()));
    assert_eq!(w.allowance(acct(GOVERNOR), acct(ALICE)), 0);
}

#[test]
fn mint_burn_deposit_withdraw() {
    let mut w = wrapper(0, true, 0);
    assert_eq!(w.mint(acct(ALICE), 10), Ok(()));
    assert_eq!(w.mint(acct(0), 10), Err(Psp22Error::ZeroRecipientAddress));
    assert_eq!(w.burn(acct(ALICE), 11), Err(Psp22Error::InsufficientBalance));
    assert_eq!(w.burn(acct(ALICE), 4), Ok(()));
    assert_eq!(w.balance_of(acct(ALICE)), 6);
    assert_eq!(w.total_supply(), 1006);
    assert_eq!(w.deposit_for(acct(BOB), 5, Err(Psp22Error::InsufficientAllowance)), Err(Psp22Error::InsufficientAllowance));
    assert_eq!(w.balance_of(acct(BOB)), 0);
    assert_eq!(w.deposit_for(acct(BOB), 5, Ok(())), Ok(()));
    assert_eq!(w.balance_of(acct(BOB)), 5);
    assert_eq!(w.withdraw_to(&env(BOB, 0, 0), acct(ALICE), 6), Err(Psp22Error::InsufficientBalance));
    assert_eq!(w.withdraw_to(&env(BOB, 0, 0), acct(ALICE), 5), Ok(UnderlyingTransfer { to: acct(ALICE), amount: 5 }));
    assert_eq!(w.balance_of(acct(BOB)), 0);
    assert_eq!(w.total_supply(), 1006);
}

#[test]
fn wrap_fits_detects_overflow() {
    let w = GovernedTokenWrapper::new(None, None, 0, acct(GOVERNOR), acct(FEE_RECIPIENT), 0, true, u128::MAX, 0, acct(TOKEN), u128::MAX - 5, 0);
    let hooks = accept();
    assert!(w.wrap_fits(&env(ALICE, 5, 0), &hooks, None, acct(ALICE), acct(ALICE), 0));
    assert!(!w.wrap_fits(&env(ALICE, 6, 0), &hooks, None, acct(ALICE), acct(ALICE), 0));
    assert!(w.unwrap_fits(&env(GOVERNOR, 0, 10), None, acct(GOVERNOR), acct(GOVERNOR), 0));
    assert_eq!(w.name(), None);
}

#[test]
fn ledger_mint_then_burn_restores() {
    let mut l = Psp22Data::new();
    assert_eq!(l.mint(acct(ALICE), 70), Ok(()));
    assert_eq!(l.burn_from(acct(ALICE), 70), Ok(()));
    assert_eq!(l.balance_of(&acct(ALICE)), 0);
    assert_eq!(l.total_supply(), 0);
    assert_eq!(l.burn_from(acct(ALICE), 1), Err(Psp22Error::InsufficientBalance));
    assert_eq!(l.burn_from(acct(0), 0), Err(Psp22Error::ZeroRecipientAddress));
}

#[test]
fn ledger_transfer_round_trip() {
    let mut l = Psp22Data::new();
    let mut hooks = accept();
    assert_eq!(l.mint(acct(ALICE), 50), Ok(()));
    assert_eq!(l.transfer(acct(ALICE), acct(BOB), 20, &mut hooks), Ok(()));
    assert_eq!(l.transfer(acct(BOB), acct(ALICE), 20, &mut hooks), Ok(()));
    assert_eq!(l.balance_of(&acct(ALICE)), 50);
    assert_eq!(l.balance_of(&acct(BOB)), 0);
    assert_eq!(l.total_supply(), 50);
    assert_eq!(l.transfer(acct(ALICE), acct(ALICE), 50, &mut hooks), Ok(()));
    assert_eq!(l.balance_of(&acct(ALICE)), 50);
}

#[test]
fn ledger_refused_transfer_keeps_the_debit() {
    let mut l = Psp22Data::new();
    assert_eq!(l.mint(acct(ALICE), 5), Ok(()));
    let mut hooks = ReceiverHooks::new(vec![false]);
    assert_eq!(l.transfer(acct(0), acct(BOB), 1, &mut hooks), Err(Psp22Error::ZeroSenderAddress));
    assert_eq!(l.transfer(acct(ALICE), acct(0), 1, &mut hooks), Err(Psp22Error::ZeroRecipientAddress));
    assert_eq!(l.transfer(acct(ALICE), acct(BOB), 6, &mut hooks), Err(Psp22Error::InsufficientBalance));
    assert!(hooks.questions().is_empty());
    assert_eq!(l.transfer(acct(ALICE), acct(BOB), 1, &mut hooks), Err(Psp22Error::SafeTransferCheckFailed));
    assert_eq!(l.balance_of(&acct(ALICE)), 4);
    assert_eq!(l.balance_of(&acct(BOB)), 0);
    assert_eq!(hooks.questions().len(), 1);
}

#[test]
fn ledger_transfer_from_spends_allowance() {
    let mut l = Psp22Data::new();
    let mut hooks = accept();
    assert_eq!(l.mint(acct(ALICE), 100), Ok(()));
    assert_eq!(l.increase_allowance(acct(ALICE), acct(BOB), 60), Ok(()));
    assert_eq!(l.transfer_from(acct(BOB), acct(ALICE), acct(GOVERNOR), 45, &mut hooks), Ok(()));
    assert_eq!(l.allowance(&acct(ALICE), &acct(BOB)), 15);
    assert_eq!(l.balance_of(&acct(GOVERNOR)), 45);
    assert_eq!(l.transfer_from(acct(0), acct(ALICE), acct(GOVERNOR), 0, &mut hooks), Err(Psp22Error::ZeroRecipientAddress));
    assert_eq!(l.approve_from_to(acct(0), acct(BOB), 1), Err(Psp22Error::ZeroSenderAddress));
}

#[test]
fn ledger_fits_checks() {
    let mut l = Psp22Data::new();
    assert_eq!(l.mint(acct(ALICE), u128::MAX), Ok(()));
    assert!(!l.mint_fits(&acct(ALICE), 1));
    assert!(l.mint_fits(&acct(0), 1));
    assert!(l.transfer_fits(&acct(ALICE), &acct(BOB), u128::MAX));
    l.set_balance(acct(BOB), 1);
    assert!(!l.transfer_fits(&acct(ALICE), &acct(BOB), u128::MAX));
    l.set_supply(0);
    assert!(!l.burn_fits(&acct(ALICE), 1));
}

#[test]
fn hooks_answer_in_order() {
    let mut hooks = ReceiverHooks::new(vec![false, true]);
    let q = HookQuestion { operator: acct(1), from: acct(2), to: acct(3), value: 4 };
    assert!(!hooks.ask(q));
    assert!(hooks.ask(q));
    assert!(hooks.ask(q));
    assert_eq!(hooks.questions().len(), 3);
    assert_eq!(hooks.answer_count(), 2);
}

#[test]
fn parts_round_trip() {
    let mut w = listed(10, true, u128::MAX);
    let g = env(GOVERNOR, 0, 0);
    assert_eq!(w.set_psp22_allowance_for_owner(acct(GOVERNOR), acct(ALICE), 33), Ok(()));
    assert_eq!(w.transfer_psp22(&g, &mut accept(), acct(BOB), 10), Ok(()));
    let parts = w.to_parts();
    assert_eq!(parts.balances.len(), 2);
    let back = GovernedTokenWrapper::from_parts(parts);
    assert_eq!(back.psp22_balance(acct(GOVERNOR)), 990);
    assert_eq!(back.psp22_balance(acct(BOB)), 10);
    assert_eq!(back.get_psp22_allowance(acct(GOVERNOR), acct(ALICE)), 33);
    assert_eq!(back.total_supply(), 1000);
    assert_eq!(back.nonce(), 1);
    assert!(back.is_valid_token_address(acct(TOKEN)));
    assert_eq!(back.name(), Some(String::from("Webb Wrapped")));
}
