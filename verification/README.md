# mousehunter_operators

Shared operator library of a trading-strategy backtest and signal runtime:
the operator registry, market and settlement rules, and the decision logic of
the MA20 main-wave and volume-trigger strategies, verified with Verus.

- `src/` — the verified library:
  - `text` — byte-level string operations with Rust's `str` semantics
    (slicing, search, ordering, ASCII case, integer parsing, trimming);
  - `param_bag` — the strategy parameter object as the rules read it;
  - `registry` — the operator registry (every entry's metadata stated as a
    table), alias resolution, plan-name inference and plan matching, with the
    laws that resolution is idempotent and that inferred operators are
    registered;
  - `ma20_main_wave` — market inference, local bar time (with the laws that it
    is the clock reading modulo a day and that zero-padded `HH:MM` texts sort
    as their minutes), close-of-session and T+1 rules, entry kinds, the exit window and exit choice, daily trend and
    cascade direction gates;
  - `volume_trigger` — window/gate/settlement settings, trading days and the
    no-look-ahead baseline window, exit matching.
- `app/` — the host side: float indicators and signal arithmetic, JSON
  documents (`serde_json`), and the float-based call signatures built on the
  library.
- `tests/` — run-time tests of the library.
