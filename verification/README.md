# gmail_cli

A command-line client for the Gmail REST API whose logic is verified with
Verus.

- `src/` is the verified library: label resolution and display, envelope
  listing and paging, address and MIME header formatting, flag-to-label
  updates, raw and read views of messages, the retry policy of the exchanges,
  and the parsing of envelope id and flag arguments. Each public function
  states what it computes in its `requires`/`ensures`; calls into
  `comfy_table`, `mail_parser`, `rfc2047_decoder`, `chrono` and `io_gmail`
  go through small trusted wrappers whose contracts name their results.
- `tests/` exercises the library on concrete values.
- `app/` is the program around it: clap argument parsing, the connection to
  Gmail (with the library's retry decisions), conversions from the API types,
  and printing (text through the library's views, JSON through serde).
