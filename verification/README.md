# pinocchio

Account handling for on-chain programs, verified with Verus.

A program receives its accounts as one run of bytes. This library turns the bytes
into accounts, gives access to their fields and data under borrow rules that are
checked at run time, resizes and closes them, and gives the bytes back.

- `src/layout.rs`: the byte layout of accounts, and the way from bytes to accounts
  and back.
- `src/account.rs`: an account header and the bytes of its data.
- `src/accounts.rs`, `src/account_info.rs`: the accounts of an instruction, and
  the copyable pointers through which a program works on them.
- `src/borrow.rs`, `src/guard.rs`: the borrow state, and the guards that a
  granted borrow hands out.
- `src/step.rs`: what each operation makes of an account and its data.
- `src/laws.rs`: what holds across operations, as proofs.

A borrow is counted in the borrow state of its account: up to 254 immutable
borrows, or a single mutable one. A guard is handed back with its `drop` method,
which takes the accounts; until then the borrow counts. The library uses neither
interior mutability nor `unsafe`: methods take the headers and data bytes that
they read or change.
