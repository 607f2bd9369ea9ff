# meshtastic-bot-discord

A Discord bot that relays messages between Discord guilds and a Meshtastic
radio network. Its decisions are a verified library; a thin program
around it talks to Discord, SQLite and the radio.

## Layout

- `src/` — the verified library.
  - `decimal.rs`: reading and writing snowflake ids as decimal text, with the
    law that reading back what was written gives the id again.
  - `io.rs`: the requests a machine makes (database queries and writes,
    Discord calls, radio messages, the final answer) and their answers.
  - `index.rs`: the pinned list of a guild's threads and the machine that
    refreshes it.
  - `command.rs`: the `/setchannel`, `/opendm` and `/post` machines.
  - `relay.rs`: relaying a message heard on the radio into every primary
    channel.
  - `mesh.rs`, `config.rs`, `registry.rs`: radio messages, settings, and the
    slash commands the bot registers.
  - `laws.rs`: what holds of every run: each request can be answered, every
    run ends, `/post` never queues an empty message and confirms where it
    went, threads are recorded under the ids Discord gave them, `/opendm` records
    a thread only after its lookup found none, every registered command is
    handled, and when the bot gives up.
- `app/` — the program: reads `config.toml`, opens the database, and runs the
  machines, carrying out each request and handing back its answer.
- `tests/` — tests of the library on concrete runs.
