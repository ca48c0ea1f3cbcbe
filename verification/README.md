# tork_rs

Record types of the Tork workflow engine (jobs, tasks, nodes, metrics) and of
its web API (job summaries, scheduled jobs, queue statistics, health reports,
task logs, pages), together with the rules the engine applies to them, all
verified with Verus:

- `broker`: which queues are coordinator-internal, worker queues, task queues;
- `task`: which task states are active;
- `health`: when a service is up;
- `decimal`: reading an `i32` written in decimal;
- `text`: decoding the text fields handed over by the engine's C interface;
- one module per record, each with `from_c`, which builds the record from
  what the C interface returns.

`app/` holds what Verus does not see: the declarations of the C interface,
the calls into it, and serde copies of the records for reading and writing
JSON.
