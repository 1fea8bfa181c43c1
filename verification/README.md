# Tabletop Club Lobby Server

The lobby server of [Tabletop Club](https://tabletopclub.net/), which is
responsible for keeping track of multiplayer lobbies. It is a WebSocket server
that listens out for commands from clients to either host or join rooms with
unique four letter room codes, e.g. `ABCD`. Once two clients have joined the same
room, they can send each other WebRTC messages (offers, answers, and candidates)
so that they can establish a direct peer-to-peer connection with each other.

## Layout

* `src/` is the library. It holds the rules of the server, which are verified with
  [Verus](https://github.com/verus-lang/verus). A few small functions that call
  other crates are trusted: their comments say what is believed of the calls.
  * `server`, `connection`, `lobby`, `room`, `player::joining` and
    `player::in_room` decide how the tasks of the server react to what happens.
    Each of them is a function from a state and an event to the next state and an
    action.
  * `player` parses the messages of the clients, `message` holds the messages
    between the tasks, and `close_code` the codes of the close frames.
  * `config` validates the configuration, and lays out the configuration file.
    `config_file` states what the file says to whoever reads it.
  * `room_code`, `profanity` and `identifiers` are about the codes of the rooms
    and the IDs of the players.
  * `text`, `int_map` and `random` are the tools that the other modules use.
* `tests/` holds the tests of the library.
* `app/` is the program around the library: it reads and writes files, accepts
  connections, runs the tasks, and carries out what the library decides.

The functions that are named `law_…` state what holds of the server as a whole.

## Running

The program takes the following arguments:

* `-c`, `--config`: The file path to the configuration file, which is checked for
  changes every thirty seconds. If the file does not exist, it is created. The
  default is `server.toml`.
* `--profanity`: The file path to the list of room codes that must not be given
  to a room, one code on each line, in alphabetical order. The default is
  `profanity.txt`.
* `-p`, `--port`: The port number. The default is `9080`.
* `-t`, `--tls`: Enables TLS encryption, with the certificate and the private key
  at the file paths given by `-x` and `-k`.
