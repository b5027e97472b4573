# mom_rpc

Transport-agnostic RPC over message-oriented middleware, with its decisions
verified by Verus.

- `src/` is the verified library: transport and broker configuration
  (`transport_builder`, `broker_builder`, `rpc_config`), the domain types
  (`domain`, `correlation`, `protocol`, `error`), the broker's decisions
  (`broker`: mode checks, request addressing, correlation of responses,
  dispatch of requests), pending requests (`pending`), subscriber lists and
  fan-out (`hub`), the retry policy (`retry`), endpoint parsing and transport
  helpers (`endpoints`, `text`), and a string-keyed table (`table`).
  `channel` declares the tokio channel types and the calls made on them.
- `app/` is the asynchronous runtime around it: the `Transport` trait, the
  in-memory transport, the `RpcBroker` tasks, serde-based payload handling
  and the retry driver.
- `tests/` exercises the library.

Durations in the library are whole nanoseconds (`u64`) and the backoff
multiplier is given in thousandths (`2000` doubles the delay).
