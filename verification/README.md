# benchmark_russell

Report generation for performance benchmarks of the sparse linear solvers of
the Rust Scientific Library (Russell): Markdown and LaTeX tables of solve
times and relative errors, lists of the tested matrices, and total-time
statistics per solver.

The library is written in Verus. Every table and list it produces is stated
exactly in the `ensures` of the function that builds it, over spec functions
that describe the text line by line.

## Layout

- `src/all_results.rs`: the results of every (solver, matrix) pair, lookup,
  the statistics row and the check that all pairs ran equally often.
- `src/markdown/`, `src/latex/`: the Markdown and LaTeX comparison tables and
  the LaTeX document around them, with laws on their shape (columns, cells,
  lines).
- `src/matrix_info.rs`, `src/matrix_table_md.rs`, `src/util.rs`: matrix
  metadata, the matrix table and lists, matching-algorithm keys and the
  parsing of the driver-version query.
- `src/text.rs`, `src/sequences.rs`: decimal rendering, thousands separators,
  escaping and trimming, with their round-trip laws.
- `src/external.rs`: the calls into `fancy_regex` and `russell_lab`, each with
  the contract that the rest of the library relies on.
- `app/`: the programs that read result files, run `latexmk` and
  `nvidia-smi`, compute floating-point statistics and plot, then hand plain
  values to the library.
- `tests/`: tests on concrete values, including the rows of the published
  tables.
