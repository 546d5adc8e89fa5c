# responses_runtime

Rules of a Responses API client, written and proved in Verus.

- `src/` decides on plain values. `request`, `metadata` and `json` write
  request bodies, `raw` keeps JSON values as the text they arrived in, `headers`
  combines headers, `client` orders the actions that open a stream, and `patch`
  decides whether and how a one-shot patch run makes its one request. The modules
  ending in `laws` state what holds of all bodies, exchanges and runs.
- `app/` performs the actions asynchronously, over whatever transport,
  credentials and catalog the embedding program brings.
- `tests/` runs the library on concrete values.

The library relies on `serde_json` for JSON strings, documents and raw values and
on `http` for header maps. What it takes from them on trust is written above each
such item.
