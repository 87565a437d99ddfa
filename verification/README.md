# polymarket-arbitrage-bot

Decision core of a dump-and-hedge bot for fifteen-minute Up/Down markets, verified
with Verus, and the program around it.

At the start of a round the bot watches both outcome tokens of a market. It buys the
one whose price falls sharply within a few seconds (leg 1), and then the opposite one
as soon as the pair costs no more than a target (leg 2), or at any price once it has
waited too long. When the market is resolved, the realized profit takes the place of
the expected one in the books, and winning tokens are redeemed in production mode.

- `src/` is the library. `trader` is the bot's state and its operations, `model` the
  transition system that their contracts refer to; `laws`, `balance` and `closing` hold
  what follows for the strategy, the books and the closure checks as a whole. `history` detects dumps, `ledger`
  keeps the books, `closure` reads resolutions, `discovery` and `schedule` find the
  market of each round, and `config` resolves the settings.
- `app/` is the program: command line, configuration file, log and the calls to the
  exchange. It ships without a network client; `exchange::Exchange` is the interface
  that one implements.
- `tests/` runs the library on concrete values.

Amounts are exact fixed-point integers: prices, shares and ratios in billionths,
costs and profits in billionths of a billionth. Only the size of an order is rounded, to
four decimals and in double precision (`double`). An operation whose result would leave
the machine range reports an overflow and changes nothing in the books.
