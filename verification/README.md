# rig-dynclient

A dynamic client builder on top of `rig-core` that selects the model provider
at run time, by name, and finds its API key in a snapshot of the environment.

- `src/` is the verified library (Verus):
  - `provider.rs`: the providers, their display and lowercase names, the
    spellings under which a name is found, and their API key variables;
  - `builder.rs`: `DynClientBuilder`, which resolves a provider name and an API
    key and builds the provider's client;
  - `client.rs`: `AnyClient`, a client of any provider, and how one is built
    from a key through `rig-core`;
  - `env.rs`: reads of the process environment, each recorded with the
    variable it read and the value it gave;
  - `error.rs`: the builder's errors and their messages;
  - `completion.rs`: the items of a streamed completion and how a processed
    item is turned back into a raw one.
- `app/` holds what lives with rig's traits, trait objects and async code and
  with the process environment: the dynamic completion traits, the reading of
  `std::env`, and copies of library types with `serde` and `thiserror` derives.
- `tests/` exercises the library on concrete values.
