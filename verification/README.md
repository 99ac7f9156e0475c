# bluetooth

A Bluetooth service for a desktop bar. It follows BlueZ on the system bus, shows the adapter and its
devices, and carries out commands: switch the adapter, look for devices, pair, connect, disconnect
and remove a device.

`src/` is the library, verified with Verus. It holds every decision and does no I/O.

| module     | what it holds                                                               |
|------------|-----------------------------------------------------------------------------|
| `text`     | comparing and searching texts                                               |
| `values`   | property values, read out of D-Bus variants                                 |
| `objects`  | BlueZ's objects, by path, interface and property                            |
| `data`     | what a snapshot holds: the state and the devices                            |
| `error`    | properties that are missing or of another type, and their wording           |
| `dbus`     | what the objects say: the adapter, its state, the devices                   |
| `calls`    | the calls to BlueZ                                                          |
| `rfkill`   | the soft block                                                              |
| `service`  | the service and how a snapshot is taken                                     |
| `signals`  | which changes on the bus matter, and the rule that subscribes to them       |
| `listener` | the listener as a state machine, from outcome to next action                |
| `commands` | each command as a task, from outcome to next action                         |
| `laws`     | what holds of every snapshot                                                |

`app/` performs the actions: D-Bus, the `rfkill` tool, inotify and the iced runtime.

What is not proved is marked in the source: the functions of `zbus` and of the standard library that
the library calls carry contracts that are believed, each with a comment that says what it claims.
