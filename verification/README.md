# st-zrt

A verified core for serving models on the ONNX Runtime engine with buffers that are bound once and
lanes that are used by one caller at a time.

`src/` is a library in Verus. It holds the data structures, the rules and the state machines: shape
plans, tensors and the memory they lie in, sessions and their interface, lanes and the calls that a
run makes, bucket caches for shapes that vary, owned and chained runs, captured-graph leases, session
options and the queue between two threads. It makes no engine call. Where one is needed, a function
says which call comes next and another takes the answer.

`app/` makes the calls, shares state between threads, maps files, allocates and locks pages, and
writes configuration and fractions as text.

`tests/` runs the library on concrete values.

| Module | What it holds |
| --- | --- |
| `shape`, `shape_plan`, `ratio` | Element counts, canonical shapes, padding limits |
| `element`, `memory`, `type_info` | Element types, memory descriptors, static types |
| `tensor` | Borrowed, owned, packed, string, sparse, allocated and mapped tensors |
| `session` | Names and types, creation, runs, bindings, lanes, copies, asynchronous runs, leases |
| `session_options`, `serde_support`, `threading` | Configuration and the calls that hand it over |
| `runtime` | Lanes, lane sets, bucket caches, owned runs, recovery, warming |
| `spsc` | The queue between one producer and one consumer |
| `calls`, `error`, `text` | Lists of calls, failures and their texts |
