# gradatum_api

The decision logic of a note-vault API: who may read and write what, how a request is checked,
which notes a search shows and in what order, what is queued, what is refused and what a refusal
leaves behind. The same operations serve HTTP and a set of agent tools.

`src/` is a library whose every function is verified with Verus. `app/` is the server around it:
routes, wire formats, streams, and the scores, which are floating-point numbers.

## How an operation runs

An operation of the library is a function of the request, the caller and the answers of the
services so far. It returns the next question to a service, a refusal, or the reply:

    Ask(question) | Fail(refusal) | Reply(result)

The server answers the question, keeps the answer, and calls the operation again. No operation
performs I/O, reads the clock or draws an identifier: moments and fresh identifiers are arguments.

The contract of an operation says, for all answers, which step is due (`..._gate`) and what the
reply holds (`..._reply`).

## Where things are

| Module | What it holds |
|--------|---------------|
| `flow`, `door`, `access`, `trust`, `error` | steps, questions and answers, rights, refusals |
| `text`, `order`, `ids`, `reference` | texts, orders, identifiers, references to notes |
| `fts`, `semantic`, `search` | search |
| `read`, `listing`, `timeline`, `graph`, `lessons`, `history`, `code_scope` | reading |
| `writing`, `cards`, `notes`, `delete`, `forget`, `capture`, `event_log` | changing |
| `queue`, `jobs`, `review`, `dashboard`, `project_map` | the queue and overviews |
| `usage` | which reads are counted, and as what |
| `identity` | the souls of agents, and who may touch them |
| `compact`, `handlers`, `mcp` | compact forms, HTTP handlers, tools |
| `progress`, `effects` | laws over all operations: each ends, and none changes what it may not |

Calls into other crates and into the standard library that Verus cannot read stand in `text`,
`ids` and `mcp`, each with the claim that is made of it.
