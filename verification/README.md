# farcaster_node

The decisions of a Farcaster node, which swaps bitcoin for monero without a middleman,
as a library verified with Verus.

- `src/` is the library. `swapd` runs one swap: `runtime` holds what a swap remembers
  and the steps that change it, `rpc_msg`, `rpc_ctl` and `sync_events` react to peers,
  to the node and to the chains, `swap_state` is the automaton of a swap, `chunks` and
  `codec` cut up and write checkpoints, and `laws` states what holds of all of it.
  `walletd` keeps the node's secrets. `chain`, `crypto` and `offer` are the doors to
  the `bitcoin`, `monero` and `farcaster_core` crates.
- A handler does no input or output. It returns the steps to be taken in order;
  `Runtime::perform` takes each and says what is left to do outside.
- `app/` does what is left: sockets, the wallet, the clock.
- `tests/` runs the library with the real crates.
