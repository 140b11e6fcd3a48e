# witness_generator_dal

The proof of an L1 batch is put together in four rounds: basic circuits, leaf aggregation, node
aggregation and the scheduler. The witness of each round is generated by a worker, and the work is
handed out through four tables of a PostgreSQL database, one row per batch and round. This crate is
the data access layer for these tables, verified with Verus.

An operation never talks to the database itself. It returns the statements to send, as values, and
a second function makes something of the replies. So the part that decides is pure and can be
proved; the part that sends is thin.

## Layout

* `src/types.rs`: batches, rounds, statuses, and what operations take and return.
* `src/sql.rs`, `src/query.rs`: statements as values, and their SQL text.
* `src/statements.rs`: which statement each operation stands for.
* `src/dal.rs`: the operations. Each contract gives the exact statement or list of steps.
* `src/replies.rs`: what is made of the replies, and which replies are errors.
* `src/coords.rs`, `src/text.rs`: stored form of the final result, and text building blocks. They
  hold the two calls into other crates, `bincode::serialize` and `itertools::Itertools::join`.
* `src/meaning.rs`: a model of the database: what a statement does to it and what it answers, and
  what is left of steps that stop half-way, in a transaction or without one.
* `src/laws/`: what holds of the operations, by way of that model: which job a worker gets, when a
  failed job is tried again, how the jobs of a batch wait for one another, which blobs are cleaned,
  which operations are all or nothing, and what no other operation undoes.
* `tests/`: the text of every statement, every reply, and each law on concrete values.
* `app/`: sends the statements with `sqlx`.

## What is not proved

That PostgreSQL does with a statement what `src/meaning.rs` says of it is taken for granted, as is
the schema: the batch number is the key of each job table, and the status is never missing.
