# mt5_rs

A client for the MetaTrader 5 terminal's named-pipe protocol, whose protocol
logic is verified with Verus.

- `src/` is the verified library: the request and response frames, the
  parameters of every command, the decoding of every response record, the
  UTF-16 string forms, the connection state that a timeout breaks, the pipe
  name of a terminal, and the discovery rules for running terminals. Every
  function carries a contract; the laws that tie functions together
  (`law_*`) are proved there.
- `app/` holds what Verus does not see: the Windows pipe and process calls,
  the worker thread that bounds a request in time, `Mt5Client`, and the
  floating-point margin and profit estimates.
- `tests/` runs the library on concrete bytes.

Prices and amounts are carried as the bits of an IEEE-754 `f64` (`u64`), as
they stand on the wire; `f64::from_bits` turns them into numbers.
