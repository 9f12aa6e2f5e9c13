# molvakt

A WhatsApp bot for learning a language with a real person. The bot sits
between a learner and a native speaker (the teacher), or between two
exchange partners who each learn the other's language. Before a learner
answers a teacher's message, the learner says how well they understood it
(and is taught or quizzed when needed); replies reach the teacher only once
the language model accepts them, with a note on how the learner did.

## Layout

- `src/` — the library, verified with Verus. The bot's decisions, the texts
  it sends and the parsers of what users write live here, with contracts
  that state the result; what is left outside is reading and writing rows
  and messages, and calling the language model:
  - `text`, `phone`: character-level helpers and phone numbers;
  - `db`: the records, their stored names, mode changes, conversation
    ordering and whom an incoming message belongs to;
  - `flow`: a learner's turn after a teacher's message, as a step function
    that stops at each call to the language model;
  - `conversations`, `menu`, `onboarding`, `bot`: commands, listings, menus,
    invites and the replies to them;
  - `llm`: the prompts and the cleaning of extracted vocabulary;
  - `vocab`, `reminders`: flashcards and morning reminders;
  - `whatsapp`: the messages a webhook payload carries.
- `app/` — the program around the library: the HTTP server, SQLite storage,
  the WhatsApp and OpenAI clients, and a terminal prototype (`--cli`).
- `tests/` — tests of the library on concrete values.
