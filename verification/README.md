# rustpush

The device side of a push client, verified with Verus: a Mac is read from its
OpenBubbles dumb file, answers what the rest of the client asks of it, and gets
its validation data from a NAC server. Beside it stands the keystore that holds
the keys of the client.

## Layout

| Module | What it holds |
| --- | --- |
| `proto`, `proto_laws` | reader of the protobuf wire format |
| `macos_remote`, `dumb_laws` | the Mac that a dumb body describes |
| `os_config` | user agents, headers and activation data of that Mac |
| `hw_body` | where the hardware-config body comes from |
| `nac`, `nac_laws` | the validation exchange as a state machine |
| `udid`, `text`, `error` | UDIDs, digits and white space, errors |
| `keystore` | the keystore trait, its compound operations, typed keys |
| `outside` | every call into another crate, with the contract it is trusted for |

`app/` does the I/O: it owns the keystore of the process, reads and writes the
on-disk forms, and drives the validation exchange over HTTP.

A keystore is described by the list of the calls that it got. A compound
operation is specified by the calls that it makes for each possible answer, so
that its contract holds of every keystore.
