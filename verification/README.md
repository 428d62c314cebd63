# pawbot

The decision logic of a Discord bot that runs a small economy of "paws":
users claim one paw a day, give paws to each other, gamble them on a coin
flip, try to steal them, and race to claim paws that appear at random in
chosen channels.

- `src/` is the verified library. Each command is a step function from what
  has been read so far (cooldown expiries, balances) to the next read, a
  refusal, or the writes to make; `ledger` gives those writes their meaning
  on a table of balances, and `laws` proves what holds across commands
  (paws are moved, not made or lost, by gifts and steals; cooldowns refuse
  exactly until they expire; one daily claim per UTC day).
- `app/` is the bot itself: the Discord client, the Postgres queries and the
  status web server, which run the library's steps.
- `tests/` checks the library on concrete values.
