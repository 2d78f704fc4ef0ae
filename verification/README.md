# repomd

Turns a repository into one token-budgeted context document: every readable
file is classified by role, compressed according to its role and a preset
level (light, medium, aggressive, ultra), and the files are packed into the
token budget (50,000 by default) as a 0/1 knapsack: of all selections that
fit, one of greatest total priority. Test files are left out unless asked for.

- `src/` — the verified library (Verus):
  - `discover.rs` — file roles from paths and content; the integer factors of
    the priority score (decision lines, centrality, freshness).
  - `compress.rs` — compression by role and level, with `try_compress_content`
    to test the conditions under which compression succeeds.
  - `json.rs` — JSON documents and their schema outline.
  - `pack.rs` — the knapsack packing, with the proof that it is optimal.
  - `assemble.rs` — the document and the token budget, with its laws.
  - `display.rs` — numbers, the budget bar, colours and wizard choices.
  - `ingest.rs` — which files are read, by guessed media type.
  - `text.rs` — character-level string operations with specifications.
  - `stdlib.rs`, `regex_ops.rs`, `tokens.rs` — the trusted boundary to
    `std::path`, `str::to_lowercase`, `regex` and `tiktoken-rs`.
- `app/` — the command line and the HTTP service: file walking, cloning,
  printing, the floating-point priority score and its ordering.
- `tests/` — tests of the library on concrete values.
