# zazu-sdk

A client library for the Zazu API, verified with Verus.

`src/` is the verified library. It prepares every request the API takes
(method, URL with percent-encoded path segments and query, headers, JSON
body), validates what can be checked before a request is made (the API key,
the page size), and reads responses: 2xx bodies are returned as-is, other
statuses become `Error::Api` with the error envelope's fields, list
endpoints become cursor-paginated `Page`s whose `next()` yields the request
for the following page.

- `client.rs` – `ClientBuilder`, `Client`, `Request`, `Response`,
  `read_response`, URL and header construction, query-string laws
- `encode.rs` – RFC 3986 percent-encoding and its decoding law
- `error.rs` – `ErrorKind`, `ApiError`, `Error`, `new_api_error`
- `json.rs` – `JsonValue`, its mathematical model `Json`, and `parse_json`
- `page.rs` – `ListParams`, `PageRequest`, `Page`
- `resources/` – the nine API resources
- `text.rs` – string helpers, decimal rendering and parsing

`app/` is the network side: it reads the `ZAZU_*` environment variables,
sends the prepared requests with `ureq` (request bodies serialised with
`serde_json`) and hands status, headers and raw body back to
`read_response`, which parses the body through `serde_json` in `src/`.
