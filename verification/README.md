# cmd-engine

A daemon that turns a natural-language request typed at a shell prompt into
a shell command, by asking a language model, plus the setup wizard that
configures it and installs the shell hook.

- `src/` is the verified library: configuration checks, prompt layout,
  provider selection and request decisions, cleaning of the model's reply,
  and the texts and choices of the setup wizard (configuration file, shell
  hooks, service files). Each public function states its result exactly.
- `app/` is the program around it: the HTTP server (axum, tokio), the HTTP
  client that talks to the model (reqwest), the interactive prompts
  (dialoguer, colored), and file, process and environment access.
- `tests/` runs the library on concrete values.
