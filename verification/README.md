# lan-mouse-server

The service core of a software KVM switch. It keeps the clients, decides which of
them are active, does what frontends ask for, and says what the other tasks of the
service have to do.

- `src/` is the verified library.
  - `net`, `text`: addresses and optional texts as plain values.
  - `client`, `config`, `message`: the data that is exchanged.
  - `handles`, `manager`: the clients by their handles.
  - `model`: the service as a mathematical state machine; every contract of `server`
    refers to it.
  - `server`, `service`: the service itself, its start, its event loop and its end.
  - `channels`: the queues to the other tasks, on top of `local_channel`, and how what
    the service causes is carried out.
  - `laws`: what holds of the service as a whole: of each thing it is asked for, and
    throughout its runs.
- `tests/` runs the library.
- `app/` is the asynchronous service around the library: the event loop, the
  notifications and the conversion of addresses and errors.
