# Autoware Sentinel

The decision logic of a safety island for a self-driving vehicle: a small system that watches
the driving stack, arbitrates its commands and brings the vehicle to a stop when it has to.
The library is written in Verus; every function in `src/` is proved against its contract.

| Module | What it holds |
|--------|---------------|
| `island`, `inputs`, `services` | what the island knows, and how messages and requests change it |
| `sensing` | a velocity report on its way through the sensing algorithms |
| `chain`, `pass` | the control chain as a state machine, and what holds of a pass as a whole |
| `history` | what holds over any sequence of messages, requests and passes |
| `publish`, `messages`, `number` | what is published after a pass |
| `endpoints`, `wiring`, `capacity` | topics and services, what a build declares, and the check of capacities before |
| `nodes` | the island as a graph of nodes |
| `param_table`, `params` | parameters and the settings that follow from them |
| `ivc` | framing of batches for a mailbox of small frames |
| `preflight` | prerequisites of integration tests |
| `log_lines` | what the log says of wiring and of requests |
| `text` | comparing and rendering text |

The control algorithms, the middleware and floating-point arithmetic stay outside: `sensing`
and `chain` say which algorithm to run next and take its result. `app/` holds the mailbox
bridge and the glue that platform binaries share.
