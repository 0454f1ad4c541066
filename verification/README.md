# wamp_proto

A client for the Web Application Messaging Protocol, verified with Verus. It implements the basic
profile of WAMP in the roles caller, callee, publisher and subscriber.

## Layout

- `src/` is the library. It decides and computes; it does no input or output and runs no tasks.
  - `id`, `uri`, `dict`, `json`: IDs, URIs, string-keyed dictionaries and JSON values.
  - `transport`: the values that cross a transport, their JSON form, and the websocket transport
    with its parsers. `transport::websocket::round_trip` states what is read back of a message that
    was written.
  - `proto`: the messages that are sent (`TxMessage`) and received (`rx`).
  - `pollable`, `buffer`, `received`: sets that know which tasks wait for them, and the buffers for
    received messages that are made of them.
  - `client`: the states of a client, the message listener, the operations (`ops`), the operations
    over a transport that listens by itself (`futures`), and the factory (`builder`). `client::laws`
    states what holds of the client as a whole.
- `tests/` holds the tests of the library.
- `app/` runs the library: tasks, locks, timers and sockets.

## How the library is run

A task is known to the library by a number. A call that makes a task wait takes its number, and a
call that changes what others wait for returns the numbers of those to notify. Tasks are stopped by
signals, which are known by numbers too.

An operation is a machine. It says what has to be done with the sink next, is told how that went,
and looks for the reply in the buffer once everything has been sent. Each turn is also told the state
of the client and whether the time is up.

## What is taken on trust

`rand`, `regex` and `serde_json` are called behind small functions whose contracts Verus believes:
`id::random_below`, `uri::regex_is_match`, and in `json` the functions that parse and write texts and
that take a `serde_json::Value` apart and put it together.
