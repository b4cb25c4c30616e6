# s3-wayfinder

A command-line tool for Amazon S3 (`ls`, `cp`, `rm`, and an interactive
browser), split into a verified library and a thin shell.

- `src/` is the library, written in Verus and verified:
  - `commands/cp.rs`: `s3://bucket/key` addresses, the transfer that
    `cp source destination` performs, and what `cp` prints.
  - `commands/ls.rs`: the names shown for buckets and objects, and the
    report that lists them.
  - `commands/rm.rs`: what `rm` prints, and which answer confirms the
    removal of a bucket.
  - `tui.rs`: the interactive browser as a state machine; a key or the
    outcome of an S3 request goes in, the next state and the next request
    come out.
- `app/` is ordinary Rust around it: the `clap` command line, the S3 calls
  through `aws-sdk-s3`, files through `tokio`, and drawing and keys through
  `ratatui` and `crossterm`.
- `tests/` runs the library on concrete inputs.
