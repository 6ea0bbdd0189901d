# agent_core

The decision logic of an LLM agent server, with its behaviour stated in
`requires`/`ensures` contracts and proved with Verus.

## Layout

- `src/` — the verified library.
  - `domain/` — the data of the agent: events, sessions, tokens and the
    types the ports exchange.
  - `llm/` — provider errors and their classification, the provider request
    and response types, the rules of the OpenAI-compatible provider (endpoint,
    model choice, message and tool mapping, reading responses, HTTP failures)
    and a scripted mock.
  - `context/` — prompt sections, the built-in sections and the composer that
    orders, builds, trims and joins them into the system prompt.
  - `memory/` — compaction policy and the no-op compaction service.
  - `app/` — one agent turn as a state machine (`AgentTurn::step`), the
    authentication rules (token plans, registration checks, refresh rules)
    and the built-in time tool.
  - `channel/` — the gRPC API messages, status mapping and the answers of the
    health, authentication, chat and session services.
  - `text.rs` — whitespace, trimming, joining and decimal rendering.
  - `time.rs` — clock readings, time zones and the rendering of instants.
- `app/` — the asynchronous edge: port traits, the HTTP provider, JSON Web
  Token decoding, the loop that performs a turn's actions, and `tonic` glue.
- `tests/` — tests of the library.

## Main properties

- A turn ends: every step lowers a lexicographic measure, and the model is
  asked at most `MAX_TOOL_ROUNDS` times (`lemma_model_calls_bounded`).
- The system prompt is exactly the enabled sections' trimmed, non-blank texts
  in ascending order (ties keep their given order), joined by blank lines;
  that order is unique (`lemma_build_order_unique`).
- Every error maps to one gRPC status, stated per variant.
- The time tool answers, for the clock reading it takes, that instant in
  the requested zone in RFC 3339 form (`execute_at` is exact for a given
  reading); the mock provider answers its script in order
  (`lemma_script_answers_in_order`).
