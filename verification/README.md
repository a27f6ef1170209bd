# governed_token_wrapper

A verified model of a governed token wrapper contract: a PSP22 token that is
minted when users wrap native funds or listed PSP22 tokens (less a fee paid
to a fee recipient) and burnt when they unwrap, with a token list that
proposals update under a strictly increasing nonce.

- `src/account.rs`: accounts (32 bytes) and key equality.
- `src/table.rs`: the finite maps that stand for contract storage mappings.
- `src/psp22.rs`: the wrapped token's PSP22 ledger (balances, allowances,
  supply). Recipients' `before_received` hooks come in as `ReceiverHooks`:
  answers given in the order the hooks are asked, with a record of the
  questions asked.
- `src/wrapper.rs`: the contract state and its messages. The chain's side of a
  call (caller, contract account, value sent, native balance) comes in as a
  `CallEnv`; a native transfer a message asks for goes out as a
  `NativeTransfer`, and `conclude` tells how the message ends once the chain
  has made or refused it. A message that fails changes nothing: the library's
  messages undo their own partial work, and `conclude` reports a refused
  transfer as a revert or a trap.
- `src/laws.rs`: properties that relate the messages.
- `app/lib.rs`: the ink! contract that keeps the state in storage, talks to
  the chain and calls the library for every decision.
