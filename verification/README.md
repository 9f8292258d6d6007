# club_certification

Attendance tracking and certificate issuing for club events on Stellar
(Soroban): event management, registration with a face hash, QR check-in with
one-time nonces valid for 15 seconds, presence pings, check-out, an automatic
eligibility check (at least 90 % of pings confirmed), certificate minting, and
fraud handling with a blacklist.

Layout:

- `src/` — the verified library.
  - `error.rs` — the refusals and their codes.
  - `types.rs` — the stored records, their keys and views.
  - `table.rs` — a keyed table of records, seen as a map.
  - `crypto.rs` — certificate identifiers, hashed by the Soroban host.
  - `rules.rs` — the decision each entry point takes on the records it reads.
  - `contract.rs` — the whole contract storage and every entry point as a
    transition of it; refused calls change nothing.
  - `laws.rs` — properties across entry points: nonces cannot be replayed,
    blacklisted addresses are refused, every certificate records at least
    90 % attendance, fraud reports blacklist and revoke.
- `app/` — the Soroban contract itself: authentication, storage access and
  conversion of host values, calling `rules` for every decision.
- `tests/` — tests of the library.
