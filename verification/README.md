# bx402

A pay-per-request proxy in front of the Brave Search API. Instead of an API key, each request
carries a stablecoin micropayment: USDC on Base over x402, or pathUSD on Tempo over MPP.

`src/` is the verified library: the catalog and its prices, configuration, payment proofs, the
pay flows of both rails, dispatch, screening, and what is recorded. It makes no network call.
Each pay flow is a sequence of steps; a step names the one outside call it waits for, and a
function takes the call's answer to the next step.

- `endpoints`, `config`, `error`, `http`, `text`, `json`: the plain values everything speaks of
- `x402`, `mpp_rail`, `screener`, `dispatch`, `payment`, `search`: the decisions
- `metrics`, `exposition`: counters, durations, labels, and the text they are exposed in
- `recording`: what of a request is recorded
- `laws`: what holds of the service as a whole, whatever the outside answers

`app/` is the binary around it: the listeners, the facilitator, Tempo, S3, and the upstream API.
