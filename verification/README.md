# rusty_tunes

A Discord music bot whose rules are proved. The library holds what the bot
decides: what the player does with its queue, what lands in the audio cache, how
loudness measurements are found, which reactions a message earns, how a gathering
is run, and what the bot says about all of it. Verus proves each function against
the contract above it. The program around the library talks to Discord, to the
audio driver, to the database and to the disk: it performs what the library
decides and hands the outcome back.

## Layout

- `src/player/` - tracks, the player of a guild, and moving on to the next track
- `src/service/` - the audio cache, loudness, emoticon reactions and gatherings
- `src/embeds/` - the messages that the player shows
- `src/commands/` - the commands that change how the player behaves this session
- `src/handlers/` - reacting to messages
- `src/bot.rs` - the bot's errors, auto-leave and clean-up, and the database migration
- `src/voice.rs`, `src/text.rs`, `src/units.rs` - what the others share
- `tests/` - tests of the library
- `app/` - the program

Each module states its laws as public proof functions named `law_...`, after the
functions that they are about.

## Conventions

- Times and durations are nanoseconds. Users, channels and guilds are their
  Discord ids. Paths use `/`.
- A volume, a gain or a loudness is carried as the bits of a single-precision
  number. The program computes with it; the library only keeps it.
- An operation that needs something done outside says so in its result, and the
  operation that follows takes what came of it.

## What is trusted

`rand` shuffles the queue, `regex` matches messages, and `String::push` appends a
character. What the proofs take for granted of each stands above its declaration.
