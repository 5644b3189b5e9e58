# nico_ranking

The tools behind the ranking of the total time people have spent watching
each video: gathering the snapshot search data, merging the weekly files,
sorting a ranking, merging sorted rankings into a CSV file and writing the
HTML pages.

- `src/` is the library, verified with Verus: the rendering of durations and
  counts, the page and index plans and their HTML, the search query
  parameters and filters, the ranking sort and the tag conditions, the merge
  steps, the file name selection, the period steps and retry rule of the
  gathering, the reading of the command-line dates and spans with their
  defaults, and the arguments of the whole run.
- `tests/` runs the library on concrete values.
- `app/` is the program: one binary whose first argument names the tool
  (`get-nico-data`, `merge-nico-data`, `sort-ranking`, `merge-rankings`,
  `html-gen`, `nico-ranking`). It does the file and network I/O, the command
  lines, the progress bars and the JSON and binary encodings, and hands the
  library plain values. `html-gen` reads its page templates
  (`template.head.html`, `template.body.head.html`,
  `template.body.foot.html`) from the directory named by
  `NICO_RANKING_TEMPLATES`, or else from beside the program.
