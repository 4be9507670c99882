# example_indexer

The decision logic of an example chain indexer and its HTTP API, verified
with Verus.

- `src/` is the verified library:
  - `api::error`: the API error, how a service error is classified
    (`NotFound` or `Anyhow`), its HTTP status, the plain-text message it is
    answered with, and whether it is logged.
  - `api::openapi`: the OpenAPI document of one version of the API.
  - `api::metrics`: the metric groups of the parametrised routes.
  - `api::v1::example`: the hello request and response and the reply to it.
  - `indexer`: the parse targets, the dispatch of the events and function
    calls extracted from a transaction, and the failures of a contract run.
  - `settings`: the settings handed to the message broker and the split of
    the configured list of state endpoints.
  - `sqlx_client::users`: the answers of the user queries.
  - `text`: substring search and string equality over characters.
- `app/` is the service around it: configuration, the database pool, the
  HTTP server and its routes, the metrics layer, and the indexing loop.
- `tests/` runs the library on concrete values.
