# zero2prod

A newsletter web service, split in two:

- `src/` is the verified library. It decides what every endpoint answers: the responses
  (status, headers, body), which session and storage work a request needs, the route table
  and the listening address. Each public function states its result exactly; the password
  change is a step function from state and event to next state and action, with a proof that
  a password is only ever stored after a successful check and when its confirmation matched.
- `app/` is the server around it: axum handlers that extract requests, read and write
  sessions and the database, run the password-change flow step by step, and turn the
  library's responses into framework responses.

## What could not be held to a source

The program this service comes from refers to parts that were not available: its
configuration, telemetry and email-client modules, the credential store (checking and
changing passwords), the validation rules for subscriber names and email addresses, the
dashboard's user-name lookup, the password-change page, the landing page file and the test
helpers. Accordingly:

- `app/backend.rs` declares the credential store and the subscriber validation rules as a
  `Backend` trait that the deployment implements; no implementation is included.
- `Application::build` takes the settings it needs directly; there is no configuration
  loading, no telemetry set-up and no email client, and `app/` is a library without a binary.
- The landing page is passed in as text rather than read from a file.
- The markup of the dashboard page and of the password-change page is this project's own;
  the tests fix only what they show (the greeting "Wellcome {username}" and the flash
  paragraph).
- The logout route `POST /admin/logout` is registered because the tests use it.
