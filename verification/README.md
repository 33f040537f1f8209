# falidex

The rules of the Falidex back end, verified with Verus, and the HTTP service
that runs them.

- `src/` is the verified library: the two-step authentication (temporary
  token, then a stored authorization checked on its token and its cookie),
  the access checks of the routes, the import of batches of referential and
  relation operations, the edition of the relations of a code and the
  counting of where referentials are used, the file cache, the signatures and
  addresses of the media host, the encryption of persisted texts and the
  settings with their defaults.
- `app/` is the service around it: axum routes and middlewares, MongoDB,
  the media host's HTTP API, the cache's files, and the serializable copies
  of the library's records.
- `tests/` runs the library on concrete values.

The import route checks the raw body of each batch against the JSON Schema
of the import format (`import_model::import_json_schema`), before it reads
the batch.
