# llamp

Llamp is a gateway that accepts OpenAI-compatible chat requests, authenticates
the caller by a proxy key, forwards the request to the backend registered for
the requested model, and answers in OpenAI's format, folding a backend's
server-sent event stream into one completion.

The crate has two parts.

- `src/` is the library, written in Verus and verified. It holds the decisions
  and formats of the gateway, each with a contract:
  - `text`: prefix tests, leftmost non-overlapping search, `split`, `replace`,
    `trim_start_matches`, Unicode `trim` and decimal rendering, stated over
    `Seq<char>`;
  - `json`: the JSON documents the logic reads (`JsonValue`), parsed from text by
    `serde_json`, and the JSON string literals it writes;
  - `config`: the server settings built from the command-line options and the
    `ADMIN_KEY` environment variable;
  - `auth`: the proxy key a `Bearer` header carries, the decision on a request
    once that key was looked up (enabled user, monthly token budget) and the
    per-user rate limit;
  - `db`: how a database URL is opened;
  - `providers`: the OpenAI provider's endpoint, `Authorization` value, request
    body, server-sent event framing and usage extraction;
  - `proxy`: framing a stream into events, folding the decoded events into one
    completion, writing that completion, the model listing, the answers to
    failed steps, the usage records; `proxy::chat` is the course of one chat
    completion (allowed backends, decoding and processing the backend's body,
    error logging) as a state machine;
    `proxy::logging` holds the request log;
  - `tunnel`: a Cloudflare tunnel's settings, `cloudflared` arguments and
    running state;
  - `cli`: the command-line tool's log level, new users and proxy keys, and the
    lines it prints.
- `app/` is the program around it: the clap command line, the axum server and
  its middleware (user keys, admin key), the SQLite store (sqlx), HTTP calls to
  backends (reqwest), decoding stream chunks into the library's chunk type
  (serde), and the `cloudflared` process.

`tests/` exercise the library on concrete values.
