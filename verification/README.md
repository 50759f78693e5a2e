# Streamry

A local Twitch bot for streamers: chat commands with cooldowns and
permissions, timers, giveaways with secure random draws, event automations
(subscriptions, raids, cheers, ad breaks, going live), an OBS media overlay,
a Stream Deck control API, StreamElements imports and backups.

## Layout

- `src/` — the library, written in Verus. Its public functions carry
  contracts that Verus proves (a few private helpers serve only as steps of
  others' proofs): how chat lines are read, which command a message runs and
  when cooldowns hold it back, what timers and automations do, how giveaways
  are entered and drawn, what an import or a restore saves, how the overlay
  and the control API answer. The few calls into other crates (random ids and
  shuffles, time stamps, lower-casing, URL encoding) sit behind small wrappers
  whose contracts say what those crates document.
  - `text`, `json`, `table`, `ids`, `clock`, `web` — building blocks.
  - `models` — the stored records.
  - `chat`, `engine`, `giveaway`, `runtime` — the bot at work.
  - `db`, `se`, `se_import`, `backup`, `media`, `activity` — data in and out.
  - `overlay`, `control`, `streamdeck`, `auth`, `eventsub`, `updates` — the
    servers, Twitch sign-in, ad-break triggers and the update check.
- `tests/` — tests of the library on concrete values.
- `app/` — the program around it: SQLite storage, the IRC and WebSocket
  connections, the HTTP servers, files, and the command line.
