# pod_roster

The roster feature of an EVE Online companion app, as a verified library: sign-in flows and
the scopes they request, the deep-link hand-off between instances, the captain's log (prompts,
completeness, the debrief wizard, past days, narratives, debriefs, objective links, the nudge),
the character and corporation detail tabs (contacts, standings, dossier), entity search, and
the sync lists with their contact table.

- `src/` is the library, verified with Verus. Each module states what its functions return or
  change in `ensures` clauses over views and spec functions; the laws that relate several calls
  are public proof functions. Calls into chrono, serde_json, sha2 and std that the library does
  not prove sit behind small wrappers whose contracts name their results.
- `tests/` runs the library on concrete values.
- `app/` holds what stays outside the proofs: the single-instance socket and the desktop
  integration files, the browser, the clock, and the figures kept as floats.
