# ztp_rust

A newsletter service. Subscribers sign up with a name and an email; the service saves
them, sends a confirmation email holding a link with a confirmation token, and marks them
confirmed when the link is followed.

- `src/` is the verified library: the checks on names and emails, the configuration
  choices, the error reports, the email requests, and the steps of handling a subscription
  as a state machine. `src/laws.rs` holds the properties that span several steps.
- `app/` is the program: configuration files, the database, the email service and the
  HTTP server. It performs the actions the library decides and reports back what happened.
- `tests/` runs the library on concrete values.
