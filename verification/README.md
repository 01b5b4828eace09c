# lumenforge

A verified model of the LumenForge Soroban contracts.

- `src/vault.rs`: the vault. `LumenVault` holds the vault's stored values;
  every call is a transition that returns what the original call returns and
  appends, in order, what it asks of the host (`Effect`: authorizations,
  token transfers into or out of the vault, events).
- `src/factory.rs`: the factory. `deploy_vault` decides and describes a
  deployment, the host deploys, `record_deployment` counts and indexes it.
- `src/vault_laws.rs`, `src/factory_laws.rs`: properties that span calls.
- `app/`: the Soroban contracts themselves, which load storage, let the
  model decide, and carry out its effects with `soroban-sdk`.
