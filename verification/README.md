# qkukeb_engine

The execution engine of the Q-KUKEB trading system. A strategy agent sends a
trade request; the engine passes it through a fixed chain of risk gates, records
an accepted trade in the portfolio, and answers with the fill figures or with the
code of whichever gate stopped it. Risk figures are streamed to subscribers and
can be published, with order books, over ZeroMQ.

## Layout

`src/` is a library whose behaviour is stated in contracts and proved by Verus.

| Module | Holds |
|---|---|
| `decimal` | fixed-point decimals: scales, sums, order |
| `double` | double-precision numbers as their encodings, compared exactly |
| `garch` | the GARCH(1,1) estimator: ring buffer of prices, when the variance moves |
| `messages` | requests, answers and risk figures |
| `interceptor` | the risk gates and their order |
| `portfolio` | positions, exposure, equity and drawdown |
| `fill` | the fill simulation |
| `state` | the portfolio with one estimator per instrument |
| `frames` | the published frames and their topics |
| `service` | the handling of a trade command, and the stream to subscribers |

`tests/` runs the library. `app/` is the gateway program: configuration, the
floating-point formulas of the volatility model, the clock, gRPC and ZeroMQ. Its
gRPC side uses the stubs generated from `trade_command.proto` as the crate
`proto_types`.

## What is proved

Each public function states its result exactly. Properties that span functions
are the proof functions whose names begin with `law_`: among them that the first
failing gate decides, that a stale signal is refused before any portfolio figure
counts, that a rejected request leaves the state as it was, that an accepted one
adds exactly its notional to the exposure and is published, that closing undoes
opening, that an estimator remembers exactly the last prices, and that sums of
decimals are exact.

No verified function panics on any input that it accepts; drawing an execution id
needs random numbers from the system, and fails where it has none. Amounts that do
not fit 64 bits are reported by the `checked_` functions and by the service; the
plain operators require that the result fits.

## What is trusted

Calls into other crates stand behind small wrappers whose contracts are not
proved: the concurrent map of estimators (`dashmap`) and the execution ids
(`uuid`). The doc comment of each says what is assumed.
