# r0le

The verified core of a Discord reaction-role bot: an administrator runs the
setup command with a list of roles, reacts to messages to bind each reaction
to a role, and from then on users who add or remove that reaction gain or lose
the role. Bindings live in a Redis store, one hash per message.

- `src/` is the library, verified with Verus: the decimal text of ids
  (`decimal`), the store's key layout and scope patterns (`keys`, `glob`,
  `scope`), the store commands and what they do to the bindings (`store`),
  role arguments and mentions (`roles`), the setup menu's state machine
  (`menu`), the decisions on gateway events (`handler`) and the options
  with the store client they name (`opts`).
- `app/` is the bot itself: the command-line parser, the serenity client and
  framework, the Redis connection, and the loops that feed events into the
  library and carry out what it answers.
- `tests/` runs the library on concrete values, with a small in-memory store.
