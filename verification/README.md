# sienna

Verified core of the Sienna contracts for Secret Network, written in Verus.

- `src/` — the library, every function with a contract that Verus proves:
  - `decimal_math`: the exchange's 10^-9-precision decimal subtraction and
    multiplication, with the fixed-point `Decimal` and `Uint128` they use;
  - `burner`: the burner contract (registered pairs burn from the burn pool;
    admins manage pairs, admins, pool and token);
  - `factory`: the factory contract (instantiation of exchanges, the launchpad
    and IDOs, and their registration by signature; admin registries);
  - `mgmt`: the vesting management contract (schedule, launch, claims);
  - `addr`, `bytes`, `text`, `env`, `error`: shared helpers and types.
  Each contract is a state type and functions from the state and a message to
  the new state and a response; laws that span several calls are public proof
  functions at the end of each module.
- `app/` — the entry points on the chain: storage, serialization, and the
  SNIP-20 and instantiation messages built from the library's responses.
- `tests/` — tests of the library.
