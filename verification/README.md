# pinocchio_util

Helpers for Solana programs written with `pinocchio`, verified with Verus.

- `option`: decoding of wire-encoded `Option<T>` integers (a tag byte, then
  the little-endian payload).
- `token_interface`: Token-2022 extension types, listing the TLV entries of
  account data, locating a mint extension, sizing a mint for a set of
  extensions, and dispatch between SPL Token and Token-2022.
- `token`, `token_2022`, `associated_token`: account checks and the
  instructions these programs are invoked with.
- `cpi`: the calls made on the runtime while accounts are created and
  initialized (loading the rent sysvar, computing a rent-exempt balance,
  invoking other programs), each of which leaves a ghost record of what was
  asked, the signer seeds it was signed with (none when unsigned), and what
  was answered.
- `sysvar`, `runtime`, `ids`, `error`: the rent sysvar, reads and writes on
  runtime accounts (a read of an account leaves a ghost record of what was
  read), program addresses, and the crate's error type.
- crate root: `DataLen` and the other account traits, account creation and
  closing, discriminators.

Every decision is made by a verified function over plain values (bytes,
lengths, addresses); the reads of runtime memory and the instructions
invoked on other programs are thin trusted wrappers. The functions that
read accounts or call on the runtime return, beside their result, a ghost
record of what they read and of the calls they made, in order; only the
trusted wrappers make such records, and the contracts state the result and
the calls in terms of them.

`app/` holds what the verified library cannot express: typed views of raw
account memory (`load`, `load_mut`) and the conversion of the library's
errors into runtime errors.
