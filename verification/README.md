# icon_maker

Generates Apple `AppIcon.appiconset` bundles from one image made by the
OpenAI image API.

- `src/` is the verified library (Verus): the icon table and its
  `Contents.json` description, the prompt, settings precedence, the config
  file lookup, the request body and retry policy of the image API, the
  decoding of its base64 payload, and the pixel work that turns the
  generated image into an opaque square master.
- `app/` is the command-line program around it: argument parsing with
  `clap`, environment and file access, TOML and JSON (de)serialisation,
  the HTTP client, and writing the PNG files.
- `tests/` exercises the library on concrete values.
