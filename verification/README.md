# buildkite_waiter

A command-line tool that waits for a Buildkite build to finish, then reports
its result and sends an OS notification.

- `src/` is the library, verified with Verus: reading build URLs, the REST API
  requests (paths, query filters, credentials), build states and their
  presentation, and the decisions of the waiting and retry loops.
- `app/` is the program around it: command-line parsing, the keychain, HTTP,
  timers, terminal output and notifications.
- `tests/` runs the library on concrete inputs.
