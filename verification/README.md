# lance_rgw

The verified core of an object store backed by the Ceph RADOS Gateway
(RGW) storage abstraction layer, for Lance.

`src/` is the library, checked by Verus:

- `error`: errno codes of the RGW C API and the storage errors they become;
  the RGW error type.
- `ffi`: the records the C API exchanges, as plain values.
- `memory`: owners of the data the C API hands back (buffers, strings, list
  results, object metadata, range results) and what is read from them.
- `store`: the RGW object store and the decisions each operation takes
  before and after its C call (read windows, reported ranges, put/get/list
  outcomes, stores made for C callers).
- `providers`: the `rgw://` and `sal://` store providers (object paths,
  store keys, store settings).
- `path`, `location`, `time`: object paths (`object_store`), URLs (`url`)
  and modification times (`chrono`, and the system clock).
- `text`: decimal text of integers.
- `laws`: properties that span the functions above.

`app/` holds the I/O: the C bindings, the `object_store::ObjectStore`
implementation that runs the C calls on blocking threads, and the C entry
points `lance_io_create_rgw_store` / `lance_io_object_store_free`.
