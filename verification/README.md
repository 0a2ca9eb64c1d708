# baiken

A Discord bot that shows Guilty Gear Strive frame data, hitboxes and move
lists, built around a verified library.

- `src/` is the library, checked by Verus. It holds the bot's logic as
  functions from plain values to plain values, each with a contract:
  resolving characters and moves (case-insensitively, through nicknames and
  aliases), drawing frame meters, building the content of the embedded
  messages, turning the wiki's frame data and image tables into move
  records and image links, and the texts and decisions of the commands and
  data checks. Calls into the `regex` and `md-5` crates and a few `std`
  character functions stand behind small trusted wrappers whose contracts
  name their results.
- `app/` is the program: Discord (poise/serenity), file and network I/O,
  JSON parsing, and the floating-point fields of the data, which the
  library does not hold.
- `tests/` runs the library on concrete values.
