# runx

Verified policy, validation and projection logic for governed skill runs,
written in Verus.

- `src/` is the library. Its functions carry contracts that Verus proves:
  skill document validation (`skill`), payment authority checks
  (`payment`, `step_payment`), the MCP protocol, framing, server dispatch and
  tool-call preparation (`mcp`), the external adapter contract and its
  process bookkeeping (`external_adapter`), hosted HTTP URL and header
  policy (`http`), receipt projections (`target_runner`, `post_merge`,
  `step_output`, `sandbox_summary`), registry rendering (`registry`), UTC
  timestamps (`timestamp`) and the JSON model with its compact text (`json`,
  `json_text`). The `law_*` proof
  functions state properties that span several operations.
- A few functions are trusted, not proved: the `#[verifier::external_body]`
  wrappers around URL parsing (`url`), SHA-256 (`sha2`), JSON string
  rendering (`serde_json`), UTF-8 decoding, `{:?}` quoting and building a
  string from characters (std), and the declared outside types. Their doc
  comments say what each contract claims. The traits that callers
  implement (MCP and HTTP transports, the external adapter resolver and
  supervisor, the publication adapter) carry only a relation that names
  what an implementation answered, and the run clock carries none; the library's
  contracts speak of the request it hands over and of what it does with
  any answer.
- `tests/` runs the library on concrete values.
- `app/` is the ordinary Rust around it: JSON parsing through serde, child
  processes and their pipes, stdio serving, hosted HTTP through reqwest, and
  the process environment.
