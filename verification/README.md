# test_steps

The integration-test plan of a REAPER extension built on `rea-rs`, written
in Verus.

- `src/plan.rs` — the steps, their names and the order in which they run.
- `src/actions.rs`, `src/projects.rs`, `src/misc.rs`, `src/misc_types.rs`,
  `src/ext_state.rs`, `src/markers.rs`, `src/tracks.rs`, `src/dialogs.rs` —
  for each step, what REAPER is expected to report, and a check that names
  the first expectation that fails.
- `src/text.rs` — comparing owned text with fixed text.
- `app/` — the step bodies that call into REAPER, gather its reports and hand
  them to the checks; the comparisons of floating-point positions and play
  rates stay there.
