# isaword

Checks whether a word appears in thirteen online dictionaries (eleven
professionally edited, two community-edited) and reports the findings.

The library (`src/`) is verified with Verus:

- `earl` — the URL of each request (origin, path, query, headers); the URL
  text itself comes from the `url` crate.
- `dom` — a document as a flat list of nodes, `domstroll`, the walk along a
  path of child positions with checks on tag, `id` and class; pages are
  parsed by `scraper`.
- `json` — a plain JSON value; answers are parsed by `serde_json`.
- `checkers` — per dictionary, how a page or answer becomes a verdict, and
  in `dispatch` which request to make and how its reply is read.
- `select` — choosing one dictionary by a name given on the command line.
- `format`, `theme`, `report` — the human-friendly list, the coloured labels
  (`colored`) and the lines and closing message of a report.

The program (`app/`) makes the requests with `reqwest` on `tokio`, reads the
command line with `clap`, and prints what the library computes.
