# openbook_v2

The bookkeeping of a central-limit order book exchange, verified with Verus.

- `src/` is the verified library: fixed-point amounts (`fixed_point`), the
  exchange state (`state`), placing orders and the reduce-only limit
  (`place_order`), settling funds (`settle_funds`), the constraints on
  instruction accounts (`accounts`), account query filters (`gpa`) and log
  events (`logs`). Each public function states its result exactly; the laws
  of the library (conservation of funds, settling twice pays nothing,
  reduce-only orders never grow a position, ...) are proof functions beside
  the code they speak of. Rounding fixed-point arithmetic and the derivation
  of program addresses are done by the `fixed` and `anchor-lang` crates
  behind small trusted wrappers whose contracts follow those crates' source.
- `app/` is the runtime side: token transfers, event emission and reading
  accounts over RPC.
- `tests/` exercises the library on concrete values.
