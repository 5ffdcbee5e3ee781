# eio-daemon

The node logic of the eieio daemon, written in Verus: every decision the daemon makes from
plain values carries a `requires`/`ensures` contract that Verus proves.

- `src/` is the verified library. Among other things it states and proves that a block
  reference always resolves to a path inside the block cache, that a state namespace decodes
  to what encoded it, that every guarded route is documented and every documented path is
  served and every served route is behind the bearer token, that an overwrite is refused unless its `If-Match` names what is on disk, that the
  orphans report lists exactly the undeclared namespaces, that a lost broker connection
  restarts the ranked walk from the top, and that a JSON batch
  reports the first error in the order its tree holds the array's items and each object's
  members (for a tree read by `serde_json`, members in key order).
- `src/**` calls outside crates (`sha2`, `similar`, `base64`, `getrandom`, `p256`, `time`) only
  through small trusted wrappers, each with a doc comment saying what its contract claims.
- `app/` is the program around the library: argument parsing, reading and writing files,
  TOML and JSON decoding into the library's types.
- `tests/` runs the library on concrete values.
