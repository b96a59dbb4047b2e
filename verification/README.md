# openshard

OpenShard hosts web services on volunteer machines behind NAT. A controller keeps
track of the volunteers, gives each of them a service to run, routes visitors by
host name through HAProxy, and reaches the volunteers through tunnels that they
open themselves.

`src/` is the library: everything that is decided or computed, written and proved in
[Verus](https://github.com/verus-lang/verus). `app/` is what surrounds it: sockets,
files, processes, HTTP servers, the database.

| Module | What it holds |
|---|---|
| `text`, `ids`, `clock`, `http` | texts, identifiers, instants, and parts of HTTP messages |
| `proto` | the frames of the tunnel |
| `tunnel` | the server's ports, sessions and visitors; the client's loop |
| `haproxy` | the configuration text and its edits, runtime commands, DNS names |
| `registrar` | volunteers, services, heartbeats, eviction, dispatch, records, recovery |
| `mesh` | the broker and the agent of the gRPC mesh, and their messages |

Work that alternates with the outside world is a state machine: `action` (or
`command`, `request`) says what to do next, the caller does it, and `resume` takes in
what came of it. Each `resume` is proved to follow a transition function on views,
and the modules named `laws`, and the sections of that name in other modules, prove
what holds over whole runs.

What the library takes on trust of other crates stands in small functions marked
`external_body`, each with a comment that says which function it calls and what is
claimed of it.

The program has one subcommand for each role: `registrar`, `tunnel-server`,
`tunnel-client`, `main-server`, `volunteer-agent` and `dns`.
