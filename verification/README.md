# absurd

Task contexts for durable tasks that run against a PostgreSQL database. A task handler is
run again after every suspension, and takes the same steps again; a step that was executed
before is answered from its checkpoint.

- `src/` is the verified library. It decides: which checkpoint a step belongs to, whether it
  was executed before, when a sleep is over, what the database's answer to a wait for an event
  means, and what is sent to the database. `src/model.rs` states what each call does to the
  state of a context, `src/laws.rs` what holds across calls and runs, `src/outside.rs` what is
  taken on trust of the crates that the library calls.
- `tests/` runs the library.
- `app/` is the asynchronous side: it sends the requests and hands back the answers.
