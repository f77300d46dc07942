# trusty_tail

A Telegram bot for pet owners: each day the owner confirms that all is well;
when the confirmations stop for two days, the owner's emergency contacts get
an alert with the owner's emergency text.

- `src/` is the verified library: the dialogue (what each message or button
  press leads to, and where the conversation goes next), the menus and their
  keyboards, the texts, invite codes, and the monitoring rules.
- `app/` is the program around it: the Telegram dispatcher, the database
  (entities and migrations), template rendering, and the periodic jobs
  (`confirm-alive`, `send-alerts`, `send-message` as first argument).
- `tests/` runs the library on concrete values.
