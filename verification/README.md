# tollbooth

A payment gate for HTTP services, settled in SPL tokens on Solana: a reverse
proxy that answers unpaid requests to priced routes with an HTTP 402
challenge, verifies charge payments and prepaid sessions (the MPP protocol),
and runs a fee relay that co-signs clients' token transfers.

The library (`src/`) holds the rules of the gateway, with contracts proved
by Verus (calls into the Solana crates rest on stated, trusted contracts):

- `amount`: parsing and rendering token amounts (`"0.001"` with 6 decimals is
  1000 raw units), with the round trip between the two proved.
- `config`: the configuration and its validation.
- `ledger`: session rows and a model of the transitions (debit, credit,
  close) that the store's SQL statements make, with their laws, among them
  how each moves the total liabilities owed to session holders; the
  statements themselves stand in `app/` and are not proved against it.
- `flow`: the MPP handlers as state machines: deposits (charges, session
  openings, top-ups), session closes with refunds, and crash recovery.
- `mpp`: challenges, receipts and the single decisions the flows take.
- `transfer`: finding a verified transfer in a transaction's token balances.
- `validation`: what the relay accepts before it signs as fee payer.
- `instruction`: the token instructions of prepared transfers and refunds,
  with the proof that a prepared transfer meets the relay's validation rules.
- `gate`: route matching, the payment gate of a priced route (session
  credential, then charge proof, then challenge), receipt headers and
  forwarding rules.
- `retry`: the backoff after a failed attempt, and a run of attempts
  (`RetryRun`) whose steps are stated against the outcome of a whole run.
- `relay`, `crypto`: relay responses, HMAC signatures.

The program (`app/`) does the I/O around the library: the command line, the
libsql store, Solana RPC, HTTP serving and forwarding, webhooks and metrics.
