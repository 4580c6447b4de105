# wvst_bridge_server

The bridge between a browser and VST3 worker processes: a WebSocket control channel
(JSON-RPC), binary audio frames routed to workers, and shared-memory audio streams pumped on
a schedule.

- `src/` is the library, written in Verus: configuration, the instance registry, metrics,
  event logs, the worker supervision policy, the worker control wire format, the audio routing
  decisions and the shared-memory pump's scheduler and event queue. Each public function
  states its result in `requires`/`ensures`, and the laws that relate several functions stand
  as public proof functions.
- `tests/` runs the library on concrete values.
- `app/` is the program around it: the WebSocket server, worker processes, the environment
  and the serde forms of the library's types.
