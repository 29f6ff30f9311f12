# berth

The verified core of Berth, a deployment control plane: a desktop app that
deploys and runs code on the local machine and on remote Linux agents, with
NATS relaying commands, events and logs between them.

`src/` is a Verus library. Every function in it carries a contract that
Verus proves, over specifications of the strings, sequences and maps
involved. It covers:

- the agent protocol: NATS subjects, HMAC-signed commands with a freshness
  window and replay protection, pairing codes and challenge responses,
  chunked archive uploads with their checksums;
- the agent's decisions: deployment directories, admissible execution
  requests, service supervision and restart backoff, probation and rollback
  of upgrades, self-update, container command lines, tunnels;
- the desktop's project handling: runtime detection and dependency
  manifests, Containerfiles, schedules, `.env` parsing and secret masking,
  path sanitization, templates, account tiers, telemetry settings;
- the MCP server's tool catalogue and its routing of JSON-RPC requests
  and tool calls.

Calls into `hmac`, `sha2`, `hex`, `base64`, `rand` and `uuid`, and a few
functions of std, go through small wrappers whose contracts say what those
functions return. `src/crypto.rs`, `src/ids.rs` and `src/text.rs` hold them.

`app/` is the ordinary Rust around the library: reading project
directories, probing the machine for container runtimes, the JSON forms of
the protocol messages and of the tool catalogue, and state shared
between requests.

`tests/` runs the library on concrete inputs.
