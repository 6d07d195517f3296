# ffxiv_bot

A chat bot for Final Fantasy XIV players: it tells what the bot is, shows the
latest Lodestone news, and shows an item's market board with a button that puts
the item on the user's wish list.

- `src/` is the verified library (Verus): data centers and their regions with
  their names read and written, the autocompletion of item and data center
  names, every message the bot sends, the market command as a state machine,
  and the page flipping of paged messages.
- `tests/` runs the library on concrete values.
- `app/` is the bot itself: the chat commands, the database, the web requests
  and the conversion of the library's plain messages into the chat library's
  builders.
