# wwmts3gw

TeamSpeak 3 jungle timer bot for Where Winds Meet guild wars. It plays announcements 60, 40 and
20 seconds before each jungle camp spawn, and one at each zeal spawn. The game timer counts down
from 30:00; camps spawn every 5 minutes, zeal at 29:45 and then every 3:05 down to 8:10.

`src/` is the library, verified with Verus. It decides what is played and said, and when.

| Module | What it holds |
|---|---|
| `schedule` | which sounds are due in which second of a game |
| `command` | the chat commands and the times written in them |
| `timer` | the timer, and what each command does to it |
| `bot`, `bot_laws` | the queue of sounds, the clip that plays, deadlines, replies |
| `bot_runs` | that no sound of a game is lost or played twice, whatever else happens |
| `ts3` | audio packets and the escaping of replies |
| `config`, `gui` | the settings and the decisions behind the GUI |
| `audio` | how sound is cut into frames |
| `identity` | the identity of the bot on a server |
| `clock`, `text`, `number` | time, words and decimal numbers |

`app/` is the program around it: command line, window, files, connection, and the coding of sound,
whose samples are floating-point numbers. `tests/` runs the library.

## Commands

Send as a channel, server, private, or poke message to the bot. All times are `MM:SS`.

| Command | Effect |
|---|---|
| `!jungle start` | Start at **30:00** now |
| `!jungle start 3:00` | 3-minute countdown, then start at **30:00** |
| `!jungle start at 25:00` | Start immediately at **25:00** (late join) |
| `!jungle start 3:00 at 25:00` | 3-minute countdown, then start at **25:00** |
| `!jungle set 25:00` | Set running timer to **25:00** |
| `!jungle channel` | Switch to channel playback |
| `!jungle group` | Switch to server group whisper |
| `!jungle stop` | Stop the timer |
| `!jungle status` | Show current game time and next announcement |
| `!jungle help` | Show all commands |
