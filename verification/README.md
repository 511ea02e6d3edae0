# pianke

The launcher of the Pianke desktop application (片刻), which helps to sort
pictures. The launcher prepares a Python environment, installs the packages of
the chosen modes, starts a local Flask service, shows it in a window, watches
over it, and keeps the code of the service up to date.

## Layout

- `src/` is a library verified with Verus. It decides what to run, what to say,
  what to remember and when to stop. It works on plain values.
- `app/` is the program: the window, the processes, the files, the network. It
  performs what the library decides and reports what came of it.
- `tests/` runs the library.

| Module | What it holds |
|--------|---------------|
| `launcher` | modes, packages, mirrors, what is remembered of an installation |
| `package_laws` | what holds of the packages and of signatures |
| `env_check` | what the machine must offer, and where Python is looked for |
| `search` | the search for a tool, step by step |
| `python_runtime` | the virtual environment, installations, the service |
| `updater` | updates of the code |
| `commands` | the first look at the machine, the setup, the watch over the service |
| `shutdown` | stopping the service |
| `text`, `number`, `order`, `paths`, `invocation` | what the others are made of |
| `outside` | what is taken from other crates without proof |

## What is taken without proof

Two functions stand in `outside`: `str::to_lowercase` and `url::Url::parse`. Each
says in its documentation what is claimed of it.
