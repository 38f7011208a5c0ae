# service_hub

A verified library for Sofintel's service hub and app runtime: it plans the
`asc` commands that App Store Connect operations, workflows and sign-in
actions run, plans the `xcodebuild`, `xcrun` and `cargo` commands that build
and run local Apple and GPUI projects, and holds the state and the texts of
the App Store Connect workspace page. Every function in `src/` carries a
contract, and Verus proves each of them but two trusted wrappers of std:
`text::char_text` (`char::to_string`) and `asc_presentation::decode_utf8_lossy`
(`String::from_utf8_lossy`), whose contracts are taken as given.

## Layout

- `src/text.rs`, `src/string_map.rs`: text helpers with specifications, and
  string maps and sets whose keys never repeat.
- `src/service_types.rs`, `src/plan_args.rs`: the service model (providers,
  targets, workflows, requests, command plans, errors) and argument building.
- `src/asc_descriptor.rs`, `src/asc_commands.rs`, `src/hub.rs`: what the App
  Store Connect provider advertises, the command plan of each request, and the
  hub that routes requests to providers.
- `src/runtime_catalog.rs`: detected projects and the execution plans of
  build and run actions.
- `src/asc_presentation.rs`, `src/asc_views.rs`: summaries of command output,
  build pages and their labels, release form inputs, and what the page's
  panels say.
- `src/asc_workspace.rs`, `src/asc_flows.rs`, `src/sorting.rs`: the page's
  choices (navigation, app, target, workflow), loading of apps and builds,
  workflow runs, app creation, and the order of listed apps and projects.
- `src/presentation.rs`, `src/instance.rs`: provider cards, version and
  bookmark texts, toolbar choices, and the single-instance check.
- `src/laws.rs`: properties that span several functions.
- `app/`: the parts that run commands, read JSON, use the network and
  threads, and carry `std::error::Error`.
- `tests/`: tests of the library through its public API.
