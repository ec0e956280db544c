# bootcamp3

Small Solana tools and on-chain programs, with their logic verified by Verus.

- `src/` is the verified library:
  - `secret_key`: parsing a secret key written as a list of bytes, and the
    proof that the printed form of a key reads back as the same bytes;
  - `keypair`: turning that text into a keypair;
  - `pda`: program derived addresses (bump search, associated token
    accounts, token metadata accounts);
  - `favorites`: the rules of the "favorites" program;
  - `escrow`: the account checks and token movements of the escrow program,
    with the proofs that an accepted offer is a swap and a withdrawn offer a
    full refund;
  - `instruction` and `client`: each client transaction (fee payer,
    signers, instructions) and the compilation of its message;
  - `base58`: the base58 text of an address;
  - `message`: the accounts a transaction names, grouped as a message
    header counts them, and the limits of a legacy message;
  - `ids` and `bytes`: well-known addresses and byte helpers.
- `tests/` runs the library on concrete values.
- `app/` is the program around it: reading keys and the environment, the RPC
  client, signing the compiled message bytes and sending them, and the Anchor programs that
  call the library for their checks and effects.

Calls into outside crates go through small trusted wrappers whose doc
comments say what each one assumes of the outside code.
