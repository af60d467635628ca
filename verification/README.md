# codex-openai-wrapper

OpenAI- and Anthropic-compatible HTTP endpoints on top of the Codex CLI.

- `src/` holds the decisions that the service makes, each function with a contract that Verus
  proves: how a request is settled and admitted, which prompt, arguments and messages Codex is
  given, which images it is handed, what Codex's output means, which events a client is sent,
  and how sessions, rate limits and the model cache evolve.
- `app/` is the service itself: routes, processes, files, the environment and the JSON forms of
  requests. It also decides what takes floating-point numbers: the band that a temperature falls
  in, the two decimals of `top_p`, and what a turn costs.
- `tests/` runs the library on concrete requests.

Functions named `law_...` state what holds across several functions.

What the library takes from outside, and does not prove, is marked
`#[verifier::external_body]` or `assume_specification`, with a comment that says what is relied
on: reading and writing JSON (`serde_json`), random identifiers (`uuid`), the clock, and std's
`String::push`.
