# ai_os

The logic of AI-OS, a desktop shell for the Raspberry Pi with an assistant at
its centre, written in Verus and proved against its contracts.

- `src/` — the verified library: model routing, the conversation loop with the
  messages API, tool planning and the tool catalogue, blog request building
  (WordPress and Ghost), session memory, the daemon's message framing and
  dispatch, the budget calendar, and the shell's decisions (themes, panel,
  onboarding, settings, chat).
- `tests/` — tests of the library on concrete values.
- `app/` — the programs around it: the daemon's socket, HTTP and SQLite, the
  tool runner, and the egui screens of the shell.
