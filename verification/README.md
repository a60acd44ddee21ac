# ClipKnow

A command-line tool that answers questions about videos on YouTube, TikTok and
Instagram. Give it a link and a question, or an open question such as "find me a
few people who explain science", and it searches, fetches and picks by itself.

Everything that is decided or computed is in `src/`, with contracts that Verus
proves. Everything that reads, writes, sends or waits is in `app/`, and is thin.

## Layout

| | |
|---|---|
| `src/text.rs` | texts: cutting, searching, numbers |
| `src/json.rs` | JSON as a tree of plain values |
| `src/outside.rs` | what is asked of other crates, and what is believed of them |
| `src/error.rs`, `src/settings.rs` | errors; settings of the environment |
| `src/ingest/` | links, the scraping service and its answers, downloads |
| `src/content/` | videos, the material a model reads, dossiers on what was seen |
| `src/agent/llm.rs` | requests to language models, and their answers |
| `src/agent/context.rs`, `compaction.rs` | the history of a conversation |
| `src/agent/tools.rs`, `execute.rs` | the tools of the model |
| `src/agent/visit.rs`, `vision.rs` | fetching one video, and having it looked at |
| `src/agent/runner.rs`, `turn.rs` | the limits of a turn, and the turn itself |
| `src/store/` | what is kept: what a store promises, one in memory, versions of the database, owners |
| `src/cli.rs`, `src/command.rs`, `src/wire.rs` | what commands decide, say and write |
| `app/` | arguments, network, SQLite, prices |
| `tests/` | tests of the library, none of which needs a network |

## What is proved

Contracts are stated over mathematical models: texts are sequences of characters,
JSON is a tree, entries of a history are their views. Beyond the contracts of the
functions, proof functions whose names begin with `law_` state what holds of the
library as a whole. Some of them:

- No tag stands in what strangers wrote once it is shown to a model
  (`law_material_is_closed`, `law_video_lines_are_sealed`).
- Every tool that a model asks for is answered, under its identifier and in order
  (`law_sent_calls_are_answered`).
- That a video cannot be looked at never costs its text
  (`law_sight_never_costs_the_text`).
- A dossier outlives the upload it was made from (`law_dossiers_outlive_uploads`).
- A fetch that failed does not cost what an earlier one got
  (`law_failures_cost_nothing`).
- What was stored is found again, and a video that is stored again stays one video
  (`law_saved_is_found`, `law_saving_again_replaces`).
- A video that a model asks for twice is fetched and paid for once
  (`law_fetching_twice_costs_once`, `law_asking_twice_costs_once`), and what was seen of
  it is paid for once too (`law_looks_are_paid_for_once`).
- A video that is stored serves as it is (`law_stored_videos_serve`).
- A limit that leaves no room for the first request is met before anything is sent
  (`law_limits_hold_from_the_start`).
- Nothing is said to be done that was not stored (`law_done_means_stored`).

Services, models and stores are traits. The contract of a turn names the requests and the
calls that its result rests on, what came of each, what the store kept after it, and what
an observer was told. A store has a model of what it keeps (`Store::kept`, `Store::looks`,
`Store::answers`) and contracts over it; `MemoryStore` is proved to keep to them.

What is believed without proof of other crates stands in `src/outside.rs` alone. Of the
store in `app/` it is believed that it keeps to the contracts of `Store`.
