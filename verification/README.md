# vision-analyze

A command-line tool that asks a local llama.cpp vision model about screenshots,
either through a running `llama-server` or by running `llama-mtmd-cli` /
`llama-cli`, optionally through a warm daemon that keeps the model loaded.

## Layout

- `src/` — the library, verified with Verus: configuration merging, presets,
  analysis planning, backend selection, the request and reply handling of both
  backends, the daemon's socket protocol and decisions (including how `--warm`
  waits for it, how `--stop` ends it and what `--health` reports), output rendering, and
  the text routines they rest on. `src/trusted.rs` holds every call into code
  Verus does not read, each with the contract the rest relies on.
- `app/` — the program around it: argument parsing, environment, files,
  sockets, processes, HTTP and JSON (de)serialisation.
- `tests/` — tests of the library.

## Laws proved in the library

- `presets::law_user_presets_override` — user presets replace built-ins of the
  same name and keep the rest.
- `output::law_json_output_is_single_line` — JSON output never holds a line feed.
- `socket::law_frame_roundtrip` — a framed message reads back unchanged.
- `client::law_base64_roundtrip` — decoding an encoded image gives it back.
- `client::law_base64_shape` — base64 output is four characters per started
  group of three bytes, from the standard alphabet, `=` only in the last two places.
- `command::law_warm_request_matches_cold` — the daemon runs exactly the
  request the client would have run itself.
- `command::law_health_without_backend_exits_2` — `--health` exits with 2
  when no backend or model is available.
- `client::server::law_base_url_trim` — trimming the server address is
  idempotent and leaves no trailing slash.
- `config::law_names_ignore_case` — format and backend names ignore ASCII case.
