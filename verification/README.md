# chatbot

A Discord chat-bot whose core is verified with Verus.

- `src/` is the library: the conversation, user, memory-manager and reminder
  state machines; binding a model's tool calls to typed calls and the argument
  maps they are shown with again; reading a Qwen-style generation apart
  (reasoning, reply, tool calls); assembling prompts, footers and transcripts,
  and rendering them with a model's chat template; the bounded reasoning of a
  generation;
  shaping outgoing messages for Discord (attachment markers, 2000-character
  chunks); the results of tool calls (bash output, file reads and fingerprinted
  edits, search results, pages, skills); the hive bot's user life cycle and
  the page text it gives its model; and the text rules of the model pack
  extractor. Every function carries a contract. Calls into outside crates go
  through small trusted wrappers whose contracts say what the crates' sources
  show; a few of them only turn library values into an outside crate's values,
  field for field, and carry no contract, while every decision about those
  values is made, and proved, in the library.
  Properties that span several functions are public proof functions named
  `law_*`.
- `app/` is the program around it: the Discord client, the state-machine
  runtime with its timers and mailboxes (each step's outcome is decided by the
  library), the docker sandbox, the search engine and web
  fetches, and the llama.cpp token loop.
- `tests/` runs the library on concrete values.
