# constella

Typed access to an LMDB key/value store.

`src/` is the verified library. It holds the byte codecs of keys and values
(`Unit`, `Str`, the plain-data codecs `CowType`, `OwnedType`,
`UnalignedType`, `CowSlice`, `OwnedSlice`, `UnalignedSlice`, and
`LazyDecode`), the engine's error codes and the library's error, the options
an environment is opened with, the registry of opened environments, the
reading of what the engine hands back from lookups and cursor moves, the
typed `Database`, and `Transformer`/`DataHolder` with the stored forms of
primitive values, strings, identifiers and options.

`app/` is the part that talks to the engine through `lmdb-sys`: opening and
closing environments, transactions, cursors and lookups. It also holds the
serde codecs (`Json`, `Bincode`), the `structsy` form of a data holder, and
the display of errors.
