# hisi_rf_ws63

The radio backend of the WS63 chip: station control, the link queues and their
native callback route, the composition of a radio from caller-owned resources, and
the BLE host.

`src/` is the library. It is written in Verus: contracts say what its functions
return and change, and they are proved. The laws that span several functions stand
beside them as public proof functions whose names begin with `law_`.

`app/` is the firmware around the library: statics, critical sections, wakers,
linker symbols and vendor calls. It asks the library what to do next, does it, and
hands the answer back.

`tests/` runs the library on concrete values.

| Module | Subject |
| --- | --- |
| `radio`, `error` | values of the control contract, numeric codes |
| `hisi_rf_backend` | blocking and incremental station backend |
| `netif_l2` | callback route, sessions, native receive and transmit cleanup |
| `composition` | resources, claims, initialization, data-path snapshots |
| `incremental_wait`, `incremental_worker` | wake sources and the worker's mailbox |
| `ble`, `ble_compat`, `ble_init_diag`, `ble_sc` | BLE host and what its archives need |
| `blocking_diagnostics`, `data_path_diag`, `diagnostics`, `render` | counters and lines |

What the library has from other crates is behind functions marked
`#[verifier::external_body]`. The comment above each names the function that is
called and says what is claimed of it without proof. Of what makes the empty link
queues nothing is claimed, and of what reads or changes the queues only what holds
whatever their other side does; the functions of the library that call them say
what was handed to the call and what is made of its answer.
