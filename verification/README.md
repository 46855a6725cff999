# music_bot

A Discord music bot whose decisions and replies are verified with Verus.

- `src/` is the verified library: command parsing (`commands`, `handler`), the texts
  the bot answers with (help, queue listing, now playing, join/leave/skip replies),
  the queue shuffle that keeps the playing song in front, clock-style durations and
  decimal rendering (`utils`), the track model (`track`) and the weather request
  (`weather`). Each public function carries a contract; the laws are proof functions
  next to the definitions they speak of.
- `app/` is the program around it: the Discord gateway, the Lavalink audio client, the
  voice gateway and the HTTP calls. It asks the library what to do and what to say.
- `tests/` runs the library on concrete values.
