# pi_coding

The tool and workflow logic of a coding agent, written in Verus: executable Rust
whose behaviour is stated in contracts and proved.

- `src/` is the library.
  - `text`, `text_map`, `json`, `lexical_path`, `sort`, `render`, `truncate`: the
    values that everything else is stated over.
  - `trust`: which projects an agent trusts.
  - `tools/`: the language server, notebook and web search tools, path
    resolution, image detection and the queue of file mutations.
  - `workflow/`: the supervisor of one workflow, the manager of all of them, their
    records, their store and what is shown of them.
  - `workflow_worktree/`: isolated working copies of a repository.
- `tests/` runs the library on concrete values.
- `app/` is the ordinary Rust around it: files, processes, the network, serialized
  forms, and the tasks that drive the library's machines.

A machine of the library takes what is known so far and says what to do next. A
driver in `app/` does it and comes back with the outcome, so every decision is a
function with a contract.

Laws that relate several functions are public proof functions whose names start
with `law_`. What is assumed of other crates stands in functions marked
`external_body`, each with a comment that says what is claimed.
