# circular_transaction_exporter

Streams BAM sigverify-verified transactions to Circular Fast without ever
blocking the validator's transaction pipeline: the BAM receive path shares
verified packet batches through a bounded queue, and the exporter submits every
transaction with one unary `SendTransaction` call, `forward = false`, within an
in-flight budget. A full queue, a saturated budget or a slow endpoint results in
counted drops, never in backpressure.

The library under `src/` is verified with Verus. It holds what is decided and
computed; the programs under `app/` hold the threads, sockets and timers.

| Module | What it holds |
|--------|---------------|
| `sender`, `queue`, `event`, `packets` | the hook: what is offered to the queue, and what becomes of it |
| `exporter`, `service`, `in_flight` | the exporter: submissions, the in-flight budget, shutdown |
| `handles` | what holds of all sender handles together |
| `metrics`, `shared`, `clock` | counters, the set that all parts share, reports and time |
| `config`, `api_key`, `proto` | configuration, the API key and the messages of the Fast contract |
| `receiver`, `codec`, `text` | the Fast test receiver and its records |
| `cli`, `tools`, `transactions` | command lines and payloads of the test tools |

Functions whose names begin with `law_` state what holds of the library as a
whole, such as that no permit is ever lost, that every transaction is accounted
for exactly once in the ledgers of the senders and the accounts of the exporter,
and that what is submitted is what was handed over, byte for byte. Of the atomics
that all parts share it is shown what they are asked to add, not what they hold:
other threads add to them and reset them at any time.

What comes from other crates is behind functions marked as trusted, each with a
comment on what is claimed of it.
