# trusttrove

Verified core of the TrustTrove invoice-financing contracts for Soroban.

- `src/` (Verus): contract error codes (`errors`), invoice status, record and
  storage keys plus invoice identifiers (`types`), the event schema
  (`events`), and the storage models of the test token (`token`) and identity
  registry (`registry`), with their laws.
- `app/`: the Soroban contracts and contract types built on the library:
  storage access, event publishing, and conversions between host objects
  (addresses, byte arrays) and the strkeys and arrays the library uses.
- `tests/`: tests of the library.
