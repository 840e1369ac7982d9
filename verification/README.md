# pinocchio_fundraiser

A Solana crowdfunding program built on pinocchio. A maker opens a fundraiser for
a token mint (instruction 0), contributors send tokens to the fundraiser's vault
(1), the maker collects the vault once the target is met (2), and contributors
take their tokens back while it is not (3).

- `src/` is the verified library: the byte layouts of the instruction payloads
  and of the fundraiser and contributor accounts, the little-endian amount
  arithmetic, and for every instruction the functions that decide, from the
  values read from the accounts, how the instruction fails or which state and
  transfers it produces. Each has a contract that Verus proves; the laws that
  relate them (layout round trips, refunds undoing contributions, payout and
  refund excluding each other, the contribution cap) are proof functions.
- `app/` is the entrypoint: it reads the accounts, the clock and the rent,
  calls the library, and performs the account creations, transfers, writes and
  closings that the library decides.
- `tests/` runs the library on concrete values.
