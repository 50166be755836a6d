# issuer-registry

A registry of issuers for a ledger of contracts, with its rules proved in Verus.

An administrator registers issuers, updates their metadata, moves them to
another address, suspends and reactivates them, and revokes them for good. A
bound limits how many issuers are active at once, and a cooldown lies between a
suspension and a reactivation. Every visible change of an issuer advances an
epoch by one, so that consumers know when to refresh what they hold. The same
administrator approves and applies upgrades of the contract in place.

## How it is laid out

`src/` is the library, all of it verified. A call works on an `Env`: the ledger
entries that it looks at, as plain values, the ledger time, and a journal of what
the call asks of the host. It answers, and leaves the journal to be performed in
order, as one transaction. Whether an address can act as a principal is for the
host to say: the calls that depend on it take the verdict as an argument.

| module | what it holds |
| --- | --- |
| `bytes`, `table`, `model`, `event` | values, records, errors and events |
| `env` | ledger entries, effects, the environment of a call |
| `rules` | what each call answers, leaves behind and asks of the host |
| `contract` | the calls |
| `invocation` | the calls that can abort, with the abort as a value |
| `laws` | life cycle, capacity, cooldown, epoch and upgrades |
| `accounting` | what stays true of the ledger through every history |
| `replay` | the journal: what it leaves on the ledger, authorization, events |
| `footprint` | which ledger entries a call depends on |

`app/` is the contract on Soroban: it reads the entries, makes the call and
performs the journal. It needs the deployment's `earnproof_shared` crate, which
holds the stored types, the lifetimes of entries and the test for principals.

`tests/registry.rs` runs the registry against a small in-memory host;
`tests/laws.rs` checks answers, journals and laws on concrete values.
