# shaide

An OpenAI-compatible gateway in front of several model providers (Google
Cloud Vertex, Azure AI Foundry and an in-house provider), with users and
access tokens, per-model rate-limit backoff and daily token limits, MCP
server discovery and a vector store for code.

The crate is a Verus project:

- `src/` is the verified library: the service's rules and data handling,
  each public function with a `requires`/`ensures` contract, and the laws
  that span several functions as public proof functions (`law_*`). Calls
  into outside crates (base64, url, imagesize, fnv, jsonwebtoken, argon2,
  fastrand, dashmap, chrono, serde_json, uuid, sysinfo, http) go through
  small trusted wrappers whose contracts say what those crates document.
- `app/` is the server around it (axum, reqwest, tokio): reading settings,
  routes, extractors, the JSON forms of the library's types, and the I/O
  loops that hand the library each provider event.
- `tests/` runs the library with the real outside crates linked.

Modules of the library, by topic:

| module | what it decides |
|---|---|
| `error` | how every failure is answered: status, OpenAI error body, legacy field |
| `error_patch` | making other error answers OpenAI-shaped |
| `auth` | bearer tokens, roles and account expiry, passwords, access tokens |
| `config` | which settings are required, their defaults, which are refused |
| `chat_request` | image URLs in chat requests, data URLs, per-model image limits |
| `chat_collect` | collecting a streamed chat completion into one |
| `chat_sse` | forwarding a provider stream to clients as server-sent events |
| `openai_stream`, `anthropic`, `vertex` | reading each provider's stream; mapping requests to Anthropic and Vertex |
| `gcp` | retry decisions, error bodies, daily limits, token budgets |
| `backoff` | per-model exponential backoff after rate limiting |
| `responses` | the Responses API: targets, stream events, provider errors |
| `completion` | code completions: fill-in-the-middle prompts and provider answers |
| `embedding` | embedding inputs, models, dimensions, ordering of results |
| `vector_db` | collection names and vector store errors |
| `mcp` | the table of MCP servers kept from pod events, proxy targets |
| `models`, `statistics`, `logs`, `health`, `forwarding` | listings, grouping, log selection, health report, forwarded headers |

The server reads its models from the JSON file named by `SHAIDE_MODELS`
(an object with `models` and `embedding_models` lists) and keeps users and
token counts in memory.
