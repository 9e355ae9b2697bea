# omaasus

The rules behind OmaAsus, a control center for ASUS hardware on Linux: what the
machine has, what a profile asks of it, and in which order that is applied.

- `src/` is the library. Every function carries a contract, and Verus proves
  it; the few that hand a call on to `uuid` or the standard library say so, and
  what they claim of it is taken on trust.
- `tests/` runs the library on concrete values.
- `app/` is ordinary Rust around it: the config on disk, the system bus, the
  kernel's files, and the settings page.

| Module | Holds |
|---|---|
| `inventory`, `model`, `machine` | what was found, and the model built from it |
| `sensors`, `fans`, `gpus`, `lights`, `controls` | the parts of the model |
| `profile`, `config`, `power`, `curve` | profiles, the rules that select them, power modes, fan curves |
| `apply`, `apply_laws`, `routes`, `report` | applying a profile, step by step, and what holds of every apply |
| `lighting`, `levels` | showing lighting modes on devices, and their brightness |
| `events`, `settings` | system events, and the settings page |
| `text`, `number`, `double`, `seqs`, `strmap`, `ids` | what the others rest on |

Work that the library cannot do itself (asking a daemon, writing a file) it
hands out as a value and takes the answer back, so that each decision stays in
verified code.
