# next_ui

The decision logic of the Bottles Next desktop client, verified with Verus.

- `src/` is the verified library: the application's phase machine and
  experience switch (`app`), the Classic workspace and its workflows
  (`classic`), first-run onboarding (`onboarding`), the streaming client's
  shell and tabs (`shell`, `features`), the plain models of the widgets
  (`components`), and the formatting of sizes and times (`bytes`, `clock`,
  `format`). Each state machine takes a message and returns the work the
  runtime must do; its contract states the resulting state and work.
- `tests/` runs the library on concrete values.
- `app/` is the iced runtime: configuration files, the Bottles core, the
  event loop and the drawing.
