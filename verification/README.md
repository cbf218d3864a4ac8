# alfred

A personal voice and text assistant ("Alfred"): it answers questions through a local or hosted
language model, lets the model call tools (time, weather, web search, opening applications,
Google Calendar, Gmail, Spotify, a wake-up briefing), keeps a log of the conversation that it
consolidates into a long-term memory, and watches the mailbox and the calendar to raise
notifications.

## Layout

- `src/` is the verified library (Verus). It holds the logic of every part: the JSON values the
  services exchange, the tool descriptions and argument reading, the command registry, one turn
  of the model loop (what enters the history, which tools run, the reply), the token cache,
  the reading of calendar, mail and music answers, the MIME body extraction, the watchers'
  rules, the memory consolidation prompt, and the texts handed back. Calls into outside crates
  (base64, regex, chrono, uuid, serde_json's string quoting) stand behind the items of
  `src/trusted.rs`, and two std calls (`String::push`, `str::to_lowercase`) behind items of
  `src/text.rs`; the contracts of these items are believed rather than proved.
- `app/` is the program around it: HTTP calls, the SQLite log, files, environment variables,
  processes, the web server, sound, and the asynchronous loops. `app/main.rs` starts the
  console assistant on the local model (default) or on the hosted one (`mistral`), the spoken
  assistant (`cli`) or the web server (`web`).
- `tests/` runs the library on concrete values.
