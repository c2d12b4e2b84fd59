# automated_market_makers

The decision logic of a constant-product AMM program, verified with Verus.

- `src/` holds, per instruction (initialize, deposit, swap, withdraw), the
  question put to the constant-product curve, the decision taken on its
  answer, and the token-program calls that carry the decision out, each with
  a contract over a spec function, plus proved laws (caps and minimums,
  custody, first deposit, withdrawal priced as deposit).
- `app/` is the Anchor program around it: account checks, the curve calls,
  and the execution of the token-program calls.
