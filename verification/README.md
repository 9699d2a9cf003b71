# rocketmq_remoting

The request tracking and the transport decisions of a RocketMQ remoting client,
written in Rust and verified with Verus.

- `src/` is the library. Verus proves its functions against their contracts;
  what it takes on trust is listed below.
  - `base`: the table of requests that wait for a response, and their waiters.
  - `net`: channels, calls, and the task that writes the outbound queue.
  - `clients`: clients, the task that receives for them, and batches.
  - `connection`, `protocol`, `error`, `time`, `metrics`: the values that these
    speak of.
  - `laws`, `runs`: what holds of the library as a whole, and over any number
    of steps.
- `tests/` runs the library on concrete values.
- `app/` runs it over sockets: it owns the tasks, the queue, the timers and the
  locks, and carries out what the library decides.

The library holds no locks and does not wait. A task that waits reports what
happened as an event; a function of the library takes the event together with
the shared state, and returns what to do next. Outcomes for waiters are
returned as completions, so that they can be delivered after the locks are
released.

A few functions call into `tokio`, `flume`, `cheetah_string` and `uuid`. These
calls are not proved. What is taken on trust of each is declared once, in a
small function that makes the call or in a specification of the function that
is called, under a comment that says what is claimed:

- `net::channel`: strings of `cheetah_string`, and identifiers of `uuid`.
- `net::channel_inner`: the text of the error of a `flume` queue.
- `net::call`: making a one-shot channel of `tokio`, of which nothing is
  claimed but which halves a call returned, and the text of its error.
- `base::response_future`: sending over a one-shot channel.
