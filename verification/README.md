# dd_bot

A middleman bot for trades in an online game. Two players of a Discord trade
channel each hand their items and gold to the bot; once both have deposited,
each claims what the other put in (or takes their own back). The bot plays
the game itself: it reads the screen through object-detection scripts and
moves the mouse and keyboard.

The library (`src/`) holds the bot's logic, verified with Verus:

- `text`, `detect`: reading the detectors' output (trimming, lines, words,
  `i32` parsing, regions, gold amounts, pouch counts).
- `pointer`: where to click (salted centres of regions) and the gestures of
  each kind of click or move.
- `pouches`: which gold pouches of 50 and 35 pay a debt, and which of them to
  click.
- `traders`: the traders of the ongoing trades and their lookups.
- `records`: what the database rows mean and which columns to write.
- `replies`: the answers and status lines for the Discord bot.
- `flows`: each procedure (fee, deposit, claims and returns of items and of
  gold, trade request, way back to the lobby, start of the game) as a state
  machine: it takes what the host observed and returns the next action.

The host program (`app/`) serves the Discord bot's HTTP requests, carries out
the actions (detector scripts, mouse and keyboard, downloads, SQLite) and
feeds the observations back to the machines.
