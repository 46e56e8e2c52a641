# wallet

The decisions behind the window of a private wallet: governance and staking, the gateway that
browser extensions pair with, the export of keys, and the maintenance of local caches. Each is a
Verus function whose contract says what it returns or how it changes the state that it is given.

## Layout

- `src/u256.rs`, `src/address.rs`, `src/text.rs`, `src/keyed.rs`, `src/accounts.rs`: numbers of 256
  bits, addresses and hashes, texts, maps and sets, and the Public accounts.
- `src/governance/`: what the staking and proposal tabs have read, the actions that allows, how a
  claim of rewards is split into transactions, and how an action is drafted, reviewed, authorized
  and continued.
- `src/gateway/`: switching wallets for a website, pairing, the listener and the install page,
  unlocking, what an extension sees, and the drafts that it composes.
- `src/key_export.rs`, `src/maintenance.rs`, `src/root.rs`: keys, caches, and the window that holds
  the flows together.
- `app/`: clocks, network interfaces, the vault, the chain and the widths of the screen.
- `tests/`: the library on concrete values.

Times are nanoseconds on one monotonic clock, handed in by the caller. What an outside service
answers is handed in too: the library says what is asked, and what follows from every answer.

The calls into other crates (`alloy` for numbers, addresses and hashes, `rand` for identifiers) and
into a few text functions of std stand behind small functions whose contracts are taken on trust;
each says which call it makes and what is believed of it.
