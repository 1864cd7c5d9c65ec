# repo_automation

The `automation` command used by repository workflows: branch sync, pull
request body management (issue outcomes, key changes, change footprint,
Validation Gate), closure directives and their neutralization, parent/child
issue guards, formatting automation and workflow integrity checks.

## Layout

- `src/` is the library, verified with Verus. Every subcommand is a state
  machine: given where it stands and the reply to its last action, it returns
  its next state and its next action (`workflow::Action`: run `gh`, run
  `git`/`rustfmt`/`pnpm`, print, write a step output or environment value,
  check or read a file, finish). The contracts state each step exactly over
  spec functions, so what a command asks for and prints is proved for every
  reply it can get.
- The text logic (reference parsing, directive sets, section rendering,
  managed body blocks, closure marking) is verified on its own; regular
  expressions are evaluated by the `regex` crate behind the wrappers of
  `src/patterns.rs`, whose results are named there.
- `app/main.rs` is the program: it reads the command line and the
  environment, performs the actions (processes, files, JSON decoding with
  `serde_json`) and feeds the replies back.
- `tests/` runs the library on concrete inputs.
