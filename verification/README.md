# pd_router

A verified router for chat completions in prefill/decode mode: one worker prefills a request, another
decodes it, and both meet at the prefill worker's bootstrap address.

`src/` is the library, written in Verus. It plans a request and selects its workers (`chat`,
`selection`), names the rendezvous of the workers (`chat`), makes choices of what the workers
generated (`choice`, `logprobs`, `tools`) and sums them up in a completion (`completion`). The
services that a router is built on are traits (`services`) whose methods promise nothing: every
contract holds for every outcome of every call, and names the calls that it depends on. `laws` states
what holds of the router as a whole, and `independence` what a completion does not depend on, for
answers that read alike (`alike`).

Beyond std, the library trusts four functions of other crates, each behind one wrapper: `json` calls
`serde_json::to_string`, `serde_json::Number::from` and `serde_json::Value::String`; `ids` calls
`uuid::Uuid::new_v4`.

`app/` is the HTTP service around the library: it awaits the scheduler clients and the tool parsers,
and turns answers into HTTP responses.
