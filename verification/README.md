# amalgam

A robust, multi-level, fail-safe cache. It fuses an in-memory cache with an optional
distributed cache and a multi-node backplane, and keeps serving when what it depends on
does not:

- only one factory runs per key, and everybody else waits for its result;
- a failing or slow factory is made up for by the last known value;
- entries are refreshed ahead of time, adapted by their factory, or renewed unchanged;
- many entries are invalidated at once by tag, on every node;
- operations that fail are queued and replayed, and a failing dependency is left alone
  for a while.

The rules the cache follows are verified with Verus. Waiting, storage and networking are
carried out by a thin runtime around them. The runtime also works out what is not verified:
which part of a freshness window an eager-refresh threshold makes (floating point), and the
report of an entry that memory evicts for want of room.

## Layout

- `src/` is the verified core. It never waits, and every rule takes the time it goes by as
  an argument; only `SystemClock` reads the machine's clock.
  - `time`, `text`, `maybe`, `error`, `events`: values.
  - `options`, `entry`, `tags`, `factory`: what an entry is, how long it may be used, what
    invalidates it, and what a factory can do.
  - `circuit`, `recovery`: breakers, and the queue of operations to replay.
  - `distributed`, `distributed_lock`, `backplane`, `locking`: envelopes and the in-memory
    store, locks across nodes, messages on the wire, locks within a process.
  - `cache`, `guarded`, `writes`, `incoming`, `effects`: the state of a cache, and the plans
    and conclusions of its operations.
  - `flow`, `background`: the path of a `get_or_set` call, from request to request.
  - `builder`, `registry`, `plugins`, `observability`: setting up and looking on.
  - `maps`: the concurrent maps, behind contracts that are taken on trust.
- `tests/` runs the core, step by step and on a real runtime.
- `app/` is the asynchronous cache: `tokio`, `moka`, `serde`, `redis`, OpenTelemetry.

## Reading the contracts

An operation on something outside comes in two parts: a plan, made before it from the state
and the options, and a conclusion, drawn from how it went. A `get_or_set` call is a sequence
of requests; each answer takes it to the next one or to its end. What else is to be done is
returned as a list of effects, in order.

The functions named `law_...` state what holds of the library as a whole, such as that a
written value is read back, that a call asks for its factory at most once and only under
the lock, or that with fail-safe and a fallback a failing factory never makes a call fail.

What is taken on trust is marked `external_body`, `external_type_specification` or
`assume_specification`, with a comment that names the outside function and says what is
claimed of it. So is what the concurrent maps hold: `markers_in`, `pending_in`, `bytes_in`
and `holders_in` in `maps` are `uninterp spec fn`s, names without a definition, and all that
is known of them is what the contracts in `maps` say.
