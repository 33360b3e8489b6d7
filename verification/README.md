# splinter_ws

A websocket client for services that are reached over HTTP. A `WebSocketClient` holds a URL
and the callbacks for the messages of the server, for the opening of the connection and for
its unexpected closing. `WebSocketClient::listen` prepares a connection, and a
`ShutdownHandle` stops it.

The library in `src/` is written and verified with Verus. It decides all that a websocket
does and leaves the network to its caller: it asks for one operation at a time, and takes
the outcome.

- `shutdown`, `reply`: closing a connection, and carrying out the response of a callback
- `session`: the stages of a websocket, and how each leads to the next
- `dialogue`: runs the stages, and calls the callbacks in between
- `client`, `listen`: the client, and starting and stopping a websocket
- `laws`: what holds over the whole course of a websocket
- `external`: what is taken from outside crates, with the contracts that are not proved

`app/` runs websockets over hyper and tokio.
