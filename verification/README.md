# irondash_texture

Native textures for Flutter engines on Android. The logic of the texture
library and of its Android smoke host comes with contracts, and each
function is proved against its own.

- `src/` is the verified library:
  - `error.rs`: the registration-failure taxonomy and its messages;
  - `payload.rs`: pixel data, payload providers, payload timing, the
    surface cache policy;
  - `android/`: the delivery decisions of an Android texture (which path a
    frame takes, the native-window geometry cache, the checks before a
    hardware-buffer flush, the row copy into a locked window, the import
    path's frame bookkeeping, teardown);
  - `smoke/`: the smoke host's names, test pattern, event records, session
    and diagnostics state, snapshot text and diagnostic verdicts.
- `tests/` exercises the library on concrete values.
- `app/` holds ordinary Rust without contracts: the JNI and NDK calls of the
  platform textures, the engine's JNI context, and the smoke host's calls
  into the texture service, each handing plain values to the library.
