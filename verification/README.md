# refine

The rules by which Refine keeps goals, merges candidates, stops processes and
tells nodes apart, as a verified library.

- `src/` is the library. Every function in it states what it returns, and Verus
  proves it.
  - `work_items` writes goals down and edits them.
  - `project_state` projects stored records, keeps the projection up to date,
    and answers queries over it.
  - `process_control` decides who may stop a process, and in which order its
    effects come.
  - `merging` takes a candidate into its target, accepts it, or reverts it.
  - `project_registry`, `nodes`, `next_actions` and `worktree_cleanup` are the
    projects of a machine, the nodes of a project, what to do next, and what
    may be removed.
  - `json`, `text`, `text_map`, `lists`, `paths`, `errors` and `model` are what
    the rest is written in. `codec` and `clock` are the ways out to other
    crates.
- `app/` carries out what the library decides: files, locks, Git.
- `tests/` runs the library on concrete values.
