# okx_detect

Finds FT inscription trades in recent Bitcoin blocks and checks them against
the activity list that the OKX marketplace publishes per tick.

- `src/` is the verified library (Verus): the transaction pattern of a
  marketplace trade (`transaction`), the choice of candidate transactions and
  the result lines of a block (`block`), the state of a scan with its tick
  cache and verdict tally (`detect`), string helpers (`text`) and the proved
  properties that relate these (`laws`).
- `app/` is the program around it: the HTTP requests, JSON decoding, the
  result files and the printed share.
- `tests/` runs the library on concrete values.
