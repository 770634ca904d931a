# docnav

The verified core of the docnav adapter SDK, written in Verus.

- `src/` is the library. Every function in it is verified against its
  `requires` / `ensures` contract; the contracts speak of spec models
  (`Seq`, `Map`-like member lists, `JsonModel`, record and stack models).
  - `cli_args`: loose scanning of command-line arguments.
  - `codes`, `typed_codes`, `details`, `payload`, `markers`, `conversion`:
    diagnostic codes, their rules and the typed detail payloads.
  - `record`, `stack`: diagnostic records and the LIFO diagnostic stack.
  - `warning`, `warning_id`: warning projections of diagnostic records.
  - `error`, `boundary_output`, `command`: adapter errors, exit codes and
    the decisions of the adapter boundary.
  - `paging`: character-budget paging of text and of entry lists.
  - `number`, `text`, `json`: decimal text, string helpers and a JSON value
    with its model; `json_text` reads a request's JSON text through
    serde_json.
  - `direct`: the rules of the direct command line (flags, options, output
    modes, config paths, config file shape, input errors, requests, help).
- Laws that relate several functions are public proof functions named
  `law_*`.
- `tests/` runs the library on concrete values.
- `app/` holds what Verus does not see: serde and clap glue, and writing
  diagnostics to a stream.
