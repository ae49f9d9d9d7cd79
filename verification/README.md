# dlep

The Dynamic Link Exchange Protocol, for routers and modems: a library whose
behaviour is stated in contracts and proved by Verus, and a modem daemon around
it.

## Library

`src/` performs no I/O.

| Module | What it holds |
|---|---|
| `proto` | ids, status codes, addresses, data items, messages, signals; `layout` states the wire format over sequences of octets, `codec` encodes and decodes, `laws` says what the two do together |
| `fsm` | state machines of session and discovery for both sides; each step takes an event and returns the actions it calls for |
| `net` | framing of messages in a stream and signals in datagrams, TTL check, setup of discovery sockets, TLS material in PEM texts |
| `ext` | registry of extensions: what is announced, and who takes part in a session |
| `daemon` | configuration, checks before the start, and the drivers that turn what happens to a task into effects to perform |

The state machines are specified as transition functions (`next`) on their
views, and each `step` is proved to follow them. What holds across functions
stands in the `*_laws` modules and in functions whose names begin with `law_`.

What is taken on trust is the behaviour of the `bytes` buffers
(`proto/buffer.rs`), of the subnets of `ipnet` (`proto/subnet.rs`), of the PEM
reader `rustls-pemfile` (`net/tls.rs`), of two functions of `String`
(`proto/error.rs`, `proto/text.rs`) and of std's `Formatter` (`proto/text.rs`).

## Program

`app/` is ordinary Rust: command line, configuration files, sockets, TLS, timers
and tasks. It asks the library what to do and does it.

## Configuration

```toml
[network]
interface           = "eth0"
discovery_v4_group  = "224.0.0.117"
discovery_v6_group  = "ff02::1:7"
discovery_port      = 854
tcp_port            = 854
use_tls             = false
gtsm_enforce        = true

[timers]
heartbeat_interval_ms = 60000
discovery_interval_ms = 5000
```

TLS is on unless it is switched off. A daemon that is to use TLS and was not
given a TLS configuration does not start.
