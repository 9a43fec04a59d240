# midw

A DDS-inspired communication middleware with a verified core. A control node
drives any number of nodes through one five-operation interface (`start`,
`stop`, `query`, `config`, `test`), over three transports: tokio channels in the
same process, Unix-domain sockets with JSON lines, and DDS publish/subscribe.

## Layout

`src/` is the verified library. Its contracts are proved by Verus.

| Module | What it holds |
|--------|---------------|
| `protocol` | commands, responses, errors, the `NodeInterface` trait |
| `node`, `node_laws` | the state of a node, its answer to each command, and what holds of any history of commands |
| `registry` | an ordered map from identifiers to values |
| `control` | the control node: registration, single calls, broadcasts, their results |
| `link`, `local` | nodes of any link, and in-process nodes |
| `ipc`, `ipc_server`, `ipc_laws` | both ends of a socket connection as state machines |
| `dds`, `dds_server`, `dds_laws` | both ends of a call over DDS as state machines |
| `dds_setup` | setting up the participant, the topics and the thread, and what each failure becomes |
| `dds_calls`, `dds_calls_laws` | the calls that overlap on one DDS handle: each gets its own reply, whichever takes it |
| `text` | numerals, padding, trimming and line framing |
| `report`, `cli` | the demo's output lines and the programs' command lines |

`app/` is the program around it: it connects, reads, writes, sleeps and speaks
JSON, and hands the library what came of it.

`tests/` runs the library.

## State machines

An exchange or a session always names the one thing to do next (`pending`). The
program does it and reports the event; `step` gives the next state. What depends
on shared state has a method of its own: `apply` for a node's state, and `open`
and `step` of `DdsCalls` for what the calls of a DDS handle share.

## What is trusted

The library believes three things about the standard library without proof: that
`str::trim` drops exactly the Unicode white space at both ends, that a clock
reading fits what a `Duration` holds, and that a present moment can be taken.
