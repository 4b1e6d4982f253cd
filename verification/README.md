# gridedge_t

A fail-closed grid trading library in Verus: the rules of a fixed-unit grid
strategy, its event-sourced ledger and the audits around it. What every function
returns or changes is stated as a contract over mathematical models and proved.

- `src/` is the library.
  - `decimal`, `clock`, `text`, `digest`, `json`, `arith`, `table` and `value` are
    its numbers, times, texts and maps. The calls into outside crates stand here.
  - `model` holds the data types, each with its view; `notation` their JSON form
    where digests are taken of it.
  - `config`, `policy`, `grid`, `gate`, `decision`, `rights`, `orders`, `domain`,
    `account` and `audit` are the rules.
  - `event` says which state follows from an event; `journal` stores events and
    answers questions; `ledger` is the only way into the journal; `execution` is
    a broker on paper.
  - `live`, `shadow`, `research` and `reference` are the rules of the programs
    around the strategy.
  - Functions named `law_..` are theorems on several functions at once.
- `tests/` runs the library on concrete values.
- `app/` is ordinary Rust: command line, files, processes, the database and the
  loop of the live worker.

What the pricing, rights and risk rules of a platform say on an event comes to the
ledger as an `Appraisal`; which state follows is decided here.
