# memos

The verified core of a memo server, written in Verus.

- `src/` is the library. `cel.rs` parses search filters in the Common Expression
  Language; `api/` converts between the stored models and the API's messages and reads
  resource names; `model/` holds the stored models, the search filter language and
  paging; `dao/` builds the SQL statements of the store and the values they bind (with
  the laws that the texts handed to the SQL builder hold one placeholder per bound
  value; the builder keeps a repeated condition once, so repeated search words or tags
  break this on the written statement); `ctrl/` (with the steps of an upload) and
  `hybrid.rs` hold the decisions of the web layer; `pb/` the protobuf messages and
  enums; `text.rs` the string and number helpers.
- `tests/` runs the library with its outside crates.
- `app/` is the thin program around it: JSON forms, the store interfaces, and a
  command that prints the query of a page of memos.
