# mfa_service

The verified core of an e-mail one-time-password (OTP) service: it decides
when a code may be sent (a cool-down of the configured base delay, 30 s by
default, that doubles with each request up to 2^10 times the base), stores
codes with a lifetime, checks them (at most a set number of attempts per
minute, a code good for one check), and answers a checked code with an RS256
token. A request claims its cool-down in one step of the store, and a check
counts its attempt in one step before deciding, so requests and checks that
run at the same time cannot get past the limits together.

- `src/` is the library, proved with Verus. Every operation on the
  key-value store is a state machine: it names the next command, takes the
  store's reply, and finishes with its result. The request handlers are
  state machines of the same kind whose actions are store commands and
  sending the e-mail. Laws about what these machines do to the store are
  proved over a model of the store (`services/store_model.rs`).
- `app/` is the HTTP server (axum) that runs the machines: it performs the
  Redis commands, renders and sends the e-mail, reads the settings and the
  keys, and renders errors as JSON.
- `tests/` runs the library on concrete values.
