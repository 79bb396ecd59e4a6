# anonymity

A verified core for a multi-provider anonymity layer (Nym, Katzenpost,
Loopix, plugins and federations of them), written in Verus.

`src/` is the library. Every function is proved against its contract,
except the three trusted calls into outside crates in `ids` (`new_uuid`,
`uuid_string` and `now`), whose contracts are believed as written:

- `types`: providers, profiles, routes, sessions, status and health reports,
  each with a view over sequences of characters.
- `ratio`: exact fractions, used for every score and share.
- `security`: the launch policy (allow-list, minimum privacy score).
- `cover`: cover-traffic presets and the generator's run state.
- `decoy`: in-memory decoy route simulation.
- `discovery`, `federation`: registries with distinct ids; route
  federation and cross-mixnet validation.
- `katzenpost`, `loopix`, `nym`: gateway/provider selection and the
  decision logic of each backend.
- `analytics`, `entropy`, `distinct`: diversity measures.
- `controller`, `sdk`: heartbeat payloads and plugin manifests.
- `ids`: the calls into `uuid` and `chrono`, timestamps, and decimal text.

`app/` is the runtime around it: the async backend trait and its Tokio
implementations (SOCKS stubs, the Nym process wrapper), JSON configuration,
the floating-point scores, and serialisable copies of the library types.
