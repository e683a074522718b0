# aionui_ai_agent

A library that manages coding agents for a conversation: remote OpenCode servers
(HTTP and server-sent events, or a WebSocket), OpenCode servers on the user's own
machine, and agents that run in the process. Its behaviour is stated in contracts
and proved with Verus.

## Layout

`src/` is the verified library. Every executable type has a mathematical model (its
`View`, named like the type with a `V` appended), and contracts speak of the models.
Work that alternates with the outside world is a state machine: `advance` takes what
happened and returns what is to be done.

| Module | Subject |
| --- | --- |
| `text`, `json`, `order`, `collections`, `ids` | texts, trees, orders, small maps and sets, random ids |
| `types`, `http`, `config` | shared types, requests and replies, server configuration and URLs |
| `state`, `state_laws` | what an agent remembers, and what every step keeps |
| `events`, `stream`, `dispatch`, `turn_laws` | reading of server events, and what an event does |
| `question`, `confirm`, `replies`, `answer_laws`, `question_laws` | prompts to the user, and the answers to them |
| `connection`, `send`, `manager`, `models`, `payloads` | connecting, sending a prompt, session operations |
| `fs_requests`, `provider_auth` | files and credentials at the server |
| `rpc`, `descriptors`, `fs_tools`, `paths`, `shell`, `project_tree` | the local tools that a server may call |
| `mcp`, `snapshot`, `log_forwarder` | making the tools known, snapshots of their changes, log forwarding |
| `local_opencode` | OpenCode servers on this machine |
| `agent_task`, `aionrs`, `connector`, `factory` | agents of every type, and how they are made |

`app/` is ordinary Rust around the library: transports, processes, files and servers.
`app/host.rs` lists what a surrounding program supplies.

`tests/` holds the tests of the library.
