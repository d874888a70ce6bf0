# biometric_gateway

Service logic for biometric attendance units that talk MQTT.

A unit publishes on `<unit>/<command>` and reads answers on `<unit>`. The
verified library in `src/` decides what each message causes:

- `topic`: splitting topics at `/` and reading the command segment.
- `store`: the key-value store commands (`JSON.GET`, `JSON.DEL`, `LPUSH`)
  for pending enrolments, pending deletions and attendance logs.
- `db`: the statements that look a unit up and set its online flag.
- `reply`: the JSON acknowledgements sent back to units.
- `handler`: the per-message state machine. `begin` takes a topic and a
  payload and returns the first action; `step` takes the answer to the last
  action and returns the next one, until a `Publish` or `Finish` ends it.
- `client`: subscriptions and what to do about broker events.
- `port`: reading the broker port from configuration text.
- `laws`: properties of whole exchanges (replies go back to the sender,
  every exchange ends within three answers, answered commands get exactly
  one reply, units change state only after a successful lookup).

`app/` is the program around it: it reads the environment, connects to the
broker, the store and the database, runs the actions and feeds the answers
back into `step`.
