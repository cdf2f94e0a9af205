# twelve_data_inav

A client library for the [Twelve Data](https://twelvedata.com) market data API,
written in Verus.

Layout:

- `src/` — the verified library.
  - `client.rs`: the client, request URLs, and the screening of replies
    (status code, JSON/CSV detection, JSON error replies).
  - `response.rs`: `DataResponse`, format checks, the CSV delimiter, and the
    JSON/CSV decoding dispatch, including the record-by-record CSV reading loop.
  - `params.rs`: intervals, output formats (case-insensitive names), and the
    common query parameters with their builder.
  - `text.rs`: Unicode white space and decimal rendering.
  - `json.rs`, `csv_reader.rs`: the trusted interface to `serde_json` and `csv`.
  - `error.rs`: `ClientError`.
- `app/` — the unverified side: HTTP transport trait, async endpoints, serde
  forms of the parameter types, serde decoding of replies, Axum integration.
- `tests/` — tests of the library.
