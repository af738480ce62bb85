# Fame

Facade for Agent Memory: a config-driven entity server over PDT, with its logic
verified by Verus.

Every kind of entity (a semantic, episodic or procedural memory, an agent
identity) is described by a TOML file. One generic engine lists, creates, reads
and changes the entities of every kind; they are stored as PDT assets, scoped per
agent by the `X-Instance-Id` header, and authorized by Cedar policies.

## Layout

- `src/` is the library. Every decision stands here, with a contract that Verus
  proves: what is asked of PDT, which results are shown and in what order, what a
  new entity is stored with, who is refused and how.
  - `entity_config` — the kinds of entities
  - `pdt` — the requests to PDT and how its replies are taken
  - `entity_handlers` — mapping, listing, creating, changing, routes
  - `auth` — the steps of authentication and its refusals
  - `cedar` — authorization
  - `openapi_gen` — the API description
  - `config`, `api`, `hashing` — configuration, answers, hashes
  - `json`, `objects`, `keyed`, `tags`, `text` — the data they work on
- `app/` is the server around it: HTTP, files, the environment.
- `tests/` runs the library on concrete values.

The laws of the library are the public proof functions whose names begin with
`law_`. Each says in its comment what holds of every input.

## What is trusted

The functions marked `external_body` and the `assume_specification` items call
other crates and the standard library. Their comments name the function that is
called and say what is believed of it: `cedar/entity.rs` and
`cedar/enforcement.rs` for Cedar and pep, `auth/validator.rs` for the token
validator's errors, `hashing.rs` for SHA-256, `text.rs` and `pdt/client.rs` for
two functions of the standard library.

## Steps

A handler that talks to PDT is a row of functions: one makes the first request,
the next takes what came back and makes the next request or the answer. The server
sends what it is handed and hands back what it gets. Each function checks
everything that its answer rests on, so the order of the refusals is part of its
contract.
