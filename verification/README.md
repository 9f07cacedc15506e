# karis-ky-escrow

A single-invoice escrow for invoice financing, verified with Verus. Investors fund an
invoice up to its target, the SME settles it (or withdraws the raised principal), and
investors claim pro-rata payouts; admins run compliance controls around it (legal
hold, dispute pause, allowlist, tiered roles, multisig policy, attestations).

Layout:

- `src/` — the verified library. `LiquifactEscrow` holds the whole contract state;
  every entrypoint takes an `Invocation` (ledger time, sequence, contract address)
  and, on success, appends the authorizations, token transfers and events that the
  host must carry out and publish. Each entrypoint's contract names the first guard that refuses a
  call and the exact state after an accepted one; a refused call changes no state, and
  appends only the diagnostic events that it publishes before failing (schema versions
  for `migrate`, the figures behind a concentration, maturity, lock-in or commitment
  refusal, the pause notice of a rate-limit breach).
  `laws.rs` states properties that span operations (status only moves forward,
  legal holds block every movement of funds, payouts fit in the settlement pool, …).
- `tests/` — scenario tests of the library.
- `app/` — the Soroban contract around the library: storage, address book,
  authorizations, token transfers with balance checks, event publication, provider
  and registry calls.
