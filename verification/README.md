# mobile_image_mounter

A client for the mobile image mounter service of iOS devices, reached through
libimobiledevice, with its decisions verified by Verus.

- `src/` is the verified library: the service's status codes and the errors
  they name (`error.rs`), the C string form of the string arguments
  (`c_string.rs`), and the client with the arguments of its uploads, mounts
  and personalization queries (`mounter.rs`).
- `app/` makes the calls into libimobiledevice and the file reads, and hands
  the library what came back.
- `tests/` runs the library on concrete values.
