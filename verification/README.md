# mini_drift

The core logic of a perpetual-futures exchange on Solana, verified with Verus:
order placement with reduce-only checks, a constant-product AMM and its fill
path, position accounting (open, increase, reduce, close, flip), spreads,
auctions, maker/taker matching and oracle guards.

Layout:

- `src/` — the verified library. Every executable function states its result
  exactly through a spec function; the `lemma_*` proof functions state the
  laws that hold across calls (a refused order or fill changes nothing, a fill
  moves base between the taker and the AMM, a swap stays on the
  constant-product curve, releasing an order's amount undoes placing it, and
  more).
  - `math/` — AMM, spread, auction, matching, oracle, order and position math.
  - `controller/` — order placement and position updates.
  - `instructions/` — market set-up, user set-up, order placement with its
    record, and the AMM fill.
  - `state/` — accounts, orders, markets, oracle readings and events.
- `tests/` — tests of the library on concrete values.
- `app/` — the Anchor program around the library: account types with their
  serialisation, instructions, events and errors as Anchor reports them.
