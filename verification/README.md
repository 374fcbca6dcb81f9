# email_interface

Multi-agent email triage for MarianneAI: Gmail messages are read through the
Google Workspace CLI (`gws`), classified for relevance, their intent extracted
and validated, queue-worthy tasks stored in PostgreSQL, and replies drafted from
the answer service (`POST /query` with `{"query": ...}`) or from the Datagouv
MCP open-data tools. Replies are never sent blindly: each is stored as a draft
under `<output-dir>/drafts/`, and only drafts marked `"approved": true` go out,
when the program is run with `--send-approved-drafts`.

The decisions and the text handling live in the library, `src/`, written in
Verus and proved against their contracts:

- `text`: character-level primitives (trimming, words, search, joining).
- `types`: messages, verdicts, queue and reply records, the shared blackboard.
- `gmail`: reply composition, sender addresses, body decoding (`gmail::body`)
  and the interpretation of `gws` output (`gmail::command`).
- `queue`: table-name validation, the SQL statements, queue records.
- `config`: run settings, the MCP endpoint and Gemini model choices.
- `json`: JSON documents as plain trees, the lookups made in them, and string
  quoting as serde_json writes it.
- `clock`: the clock's reading, kept within the years the formats render.
- `agentic`: the supervisor's routing, the specialists' bookkeeping, reply
  drafts and their release once approved, search-query construction, the query memory, MCP and answer
  endpoint requests and replies, the mission step and the final report. The laws of the
  library are proved in `agentic::memory_laws`, `agentic::search_laws` and next
  to the functions they speak of.
- `trusted`: the calls into `base64`, `serde_json`, `chrono` and the standard
  library whose contracts are assumed, each documented with what it claims.

`app/` is the program around the library: argument parsing, environment
variables, the `gws` process, HTTP calls, PostgreSQL, the Gemini agents, file
output and the asynchronous orchestrator loop.
