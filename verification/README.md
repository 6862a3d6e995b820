# fsdk

A Rust interface to the Luxand FaceSDK native library, with its logic verified by
Verus, and the live-recognition and portrait samples built on it.

- `src/` is the verified library. Every FaceSDK operation reaches the native
  library through a `Native`: the function that performs one `NativeCall` and
  returns the library's `NativeReply` (or the message of the error that loading
  the library reported), with a record of the calls made. The contracts state the
  exact sequence of calls each operation makes, with their arguments (no call on
  its early error paths), and what it returns for every reply. Besides the operations it holds the error
  codes, text handling at the C boundary (NUL checks, C strings, name lists,
  trimming), face geometry, and the drawing code of the live view (frames,
  anti-aliased text, proportional scaling).
- `app/` loads the native library with libloading and performs the calls, gives
  images, cameras and trackers `Drop`, and holds the operations on floating-point
  values, the camera, the window, the font rasterizer and the dialogs.
- `tests/` runs the library against scripted native replies.

The program runs the portrait sample when its arguments are
`portrait <in_file> [out_file]`, and live recognition otherwise.
