# Playrust

Playrust drives Chromium for web tests: it runs flows of steps in isolated browser contexts, answers a
session protocol of one JSON command per line, records what it did in a journal, and exports that
journal as a replay. The decisions of all this are a Rust library that is verified with Verus.

## Layout

- `src/` is the library. Everything in it is verified, but for the small wrappers around outside
  functions, whose contracts are relied on (see below).
  - Text and data: `text`, `text_map`, `paths`, `number`, `json`, `codec`, `secrets`, `values`.
  - Flows: `flow`, `guards`, `outputs`, `assertions`, `step_work`, `step_error`, `diagnostics`,
    `flow_run`, `flow_run_laws`, `run_report`, `report`.
  - The page: `address`, `frames`, `navigation`, `interaction`, `gesture`, `http`, `overlay`, `visual`,
    `dialog`, `locate`, `runtime`.
  - Snapshots: `snapshot`, `snapshot_json`.
  - Recordings: `video`, `recorder`.
  - The session protocol: `envelope`, `request`, `action`, `interactive`, `session`, `session_laws`,
    `wire`, `journal`, `replay`, `bundle`.
- `tests/` holds the tests.
- `app/` is the program around the library: the browser, FFmpeg, HTTP, files and pipes. What it takes
  from elsewhere (launching Chromium, the locator engine, the router of frames with a process of their
  own, and the compiler of flows) are the traits in `app/outside.rs`.

## How work is divided

Work that waits for the outside is a state machine in the library: `next` takes a state and an event
and gives the next state and an action. The program performs the action and hands back what happened.
`FlowRun`, `Session`, `Navigation`, `VideoStarting`, `VideoEnding`, `Finalization`, `SessionRecorder`,
`Export`, `Closing`, `Clicks`, `Hold` and `LocatorSearch` are such machines. Their laws are public proof
functions beside them.

Times are nanoseconds in `u128`. Numbers with a fraction are carried as their bits in `Real64`; what is
computed with them stands in `app/geometry.rs`.

What the library takes from outside crates (`serde_json`, `serde-saphyr`, `url`, `image`, `base64`,
`chromiumoxide`'s table of keys) and from `std` without a specification stands behind small wrappers,
each with a contract that says what is relied on.
