# awesome-nostr-relays

A curated catalog of Nostr relays and the logic that keeps it healthy, written
in [Verus](https://github.com/verus-lang/verus): every function of the library
states what it returns, and the statements are proved.

`relays.toml` is the single source of truth. From it and from `health.json`, the
snapshot of what probes have measured, the tools validate entries, probe relays
and publish machine-readable artefacts.

## Layout

The library, in `src/`, is free of IO.

| Module                | What it holds                                                        |
|-----------------------|----------------------------------------------------------------------|
| `model`               | Catalog and health types, networks, the health classification        |
| `validate`            | Every rule a catalog must keep, with all violations reported at once |
| `reordering`          | That the verdict on a catalog does not depend on the order in it     |
| `health`              | How probe results change the health report                           |
| `probe_types`, `probe`| Probe results, failure classes, and the steps of a probe             |
| `render`              | NIP-66 event templates and the published JSON documents              |
| `relays`, `anr`       | The two catalog layouts before the current one                       |
| `exchange`            | The WebSocket exchange those two layouts probe with                  |
| `text`, `text_map`, `timestamp`, `duration`, `json`, `relay_url` | The ground the rest stands on |
| `address_text`, `json_text` | Which addresses and documents run over the counters of those that read them |

Laws that relate several functions are public proof functions named `law_…`, at
the end of the module they belong to.

`app/` is the `anrelays` command-line tool: files, network, serialisation.
`tests/` runs the library on concrete values.

## What is taken on trust

A few calls leave the library: `url` reads, copies and rewrites addresses, `serde_json`
reads documents, `chrono` tells and compares times, and `std` quotes texts and
spells durations. Each stands behind one small function whose doc comment says
what is claimed of it.
