# storyos-adapter-postgres

The command and storage logic of the StoryOS PostgreSQL adapter, verified
with Verus.

- `src/` is the library. Each module holds the decisions of one command or
  store: what a stored row means, how a classification settles, what a
  receipt and an activity payload record, and what a replay reads back. The
  first use of Set Current Chapter, Update Chapter, Update Volume, Take Over
  Project Writer, Update Project Assistance and of an undo's prose,
  structural or Current Chapter compensation is a step function
  (`*_step`): from the state and the
  store's answer to the last statement it gives the next state and the next
  statement to run, or the settlement, or the error. The contracts state
  these over the texts and counters that the database holds; the laws
  (`lemma_*` proof functions) state what holds across calls, such as a
  replay answering with the settlement of the first use, or undo putting a
  moved sibling back.
- `app/` is the PostgreSQL side, with `tokio-postgres`: the Release 1
  Storage Activation, and the statements that the Set Current Chapter,
  Update Chapter, Update Volume and takeover step functions ask for (the
  domain classification is handed in by the caller).
- `tests/` runs the library on concrete values.
