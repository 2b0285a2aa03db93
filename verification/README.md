# wire

The logic of a tool that deploys NixOS systems, verified with
[Verus](https://github.com/verus-lang/verus).

A *hive* is a collection of nodes. wire reads it from a flake or a `hive.nix`,
selects nodes by name or tag, plans the steps that each of them needs (ping,
evaluate, build, copy, upload keys, activate), and carries the plans out.

## Layout

`src/` is the library. Verus proves the contracts of its functions, but for the few that call
another crate or the standard library: of those it takes the contract, where there is one, on
trust, and a comment above each says what is claimed.

| module        | what it holds                                                        |
| ------------- | -------------------------------------------------------------------- |
| `cli`         | what can be asked for on the command line                            |
| `apply`       | which nodes a command works on, partitions, the outcome              |
| `hive`        | nodes, schema versions, locations, plans and their steps             |
| `plan`        | plans whose steps are carried out one after the other, and `execute` |
| `commands`    | command lines, and what their output means                           |
| `nix_client`  | the protocol of the nix daemon                                       |
| `cache`       | what is remembered between runs                                      |
| `status`      | the status bar                                                       |
| `logging`     | the log                                                              |
| `key_agent`   | what the agent on a node accepts                                     |
| `text`, `sets`, `json`, `paint`, `terminal`, `store_path` | what all of these are written with |

Work that cannot be verified (processes, sockets, files, the database) is done
by the program in `app/`. Where work and decisions alternate, the library holds
the decisions as a state machine: it says what to do next, the program does it
and hands back what happened.

Calls into other crates go through small functions whose contracts are trusted.
They are marked `external_body`, and their comments say what is claimed.

`tests/` runs the library, and with it those functions, on concrete values.
