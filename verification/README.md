# hw_rs

Message encoding and decoding for the Hyprwire protocol, verified with Verus,
and a Hyprpaper client built on it.

- `src/vlq.rs`: variable-length quantities.
- `src/types.rs`: message kinds, type tags, values, and reading a value from bytes.
- `src/payload.rs`: payloads and how they are written.
- `src/message.rs`: messages, how they are written, and how objects and messages are read.
- `src/roundtrip.rs`: what reading gives back of what was written.
- `src/hyprpaper.rs`: the handshake and wallpaper decisions, as a session driven by its caller.
- `src/error.rs`: errors and their texts.
- `app/main.rs`: the program that connects to the Hyprpaper socket and runs a session.
