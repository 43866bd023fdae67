# shizuku

Coordination primitives for services that talk over NATS. Each decision
is a function whose contract states what it decides; the contracts are
proved against the code, not against the network.

- `src/` is the verified library. Its functions decide; they never wait on
  the network. The distributed read-write locks (`kv::rw_lock`,
  `kv::frame_lock`), the leader election (`kv::election`) and the atomic
  read-modify-write (`kv::atomic_opt`) are tasks: each step says which
  bucket operation to perform next and takes back what it gave. Subject
  paths and matchers live in `message`, message routing and
  acknowledgement in `jetstream`, service replies in `service_rpc`, the
  retry policy in `processor`, the size of the task pool in `pool`, and the
  reading and resolution of the option lists of streams, consumers,
  services and messages in `attr`, from their text in `attr::text`.
- `app/` performs the round trips with `async-nats` and `tokio`, holds the
  asynchronous processor traits, and the bincode and JSON codecs.
- `tests/` runs the library on concrete values.
