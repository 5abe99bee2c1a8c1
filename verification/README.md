# City chat bot

A chat bot that tells the weather and the time in cities, in a web chat and in
Telegram.

`src/` is the conversation logic, verified with Verus:

- `text`: what strings hold, and the string functions of the standard library
- `locale`: the phrases of a language, and how their holes are filled
- `cities`, `clock`: the table of cities, and the time in one of them
- `intent`: what a message asks for
- `weather`: the steps of asking the weather service
- `reply`: what is answered to a message
- `telegram`: what is sent to a Telegram chat
- `session`: one connection of the web chat
- `settings`, `pages`: the environment's variables, and the start page

`app/` is the program around it: the web server, the Telegram bot, the network
and the files. `tests/` runs the logic on examples.
