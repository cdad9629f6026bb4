# bank_server

A simulated bank server. Clients send random deposits and transfers, a
server schedules a balance snapshot after every ten finished operations and
decides when all work is done, and workers carry the requests out on the bank.

- `src/` is the library, verified with Verus: the bank and its laws
  (`bank`, `worker`), the request queues (`request_queue`,
  `lock_free_queue`), the server's and the dispatcher's decisions (`server`,
  `dispatcher`), and the clients' random requests (`client`, with the calls
  into `rand` in `random`). Money is counted in cents as `i64`.
- `app/main.rs` runs the simulation: command line, threads, locks, sleeping,
  the clock and printing.
- `tests/` exercises the library on concrete values.
