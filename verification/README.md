# Forkt Lighthouse sentry

Standalone Ethereum Mainnet consensus-gossip ingress for Forkt, built on the networking of
Lighthouse. It does not run a beacon database, fork choice, validator duties or an execution
client.

The sentry

1. verifies a configured Beacon API against the Mainnet genesis validators root;
2. uses that API only to maintain the head and finality fields of the status handshake;
3. joins the consensus network and subscribes to `beacon_block` gossip;
4. records when a decoded block was delivered and which peer forwarded it first;
5. sends a versioned JSON datagram to `forkt-sensor`.

Messages are observed after SSZ decoding and before any validation, and are not relayed.

## Layout

`src/` is the library, verified with Verus. It decides; it does no I/O.

| module      | what it holds                                                             |
|-------------|---------------------------------------------------------------------------|
| `text`      | comparing, trimming and splitting text                                    |
| `decimal`   | unsigned integers in decimal                                              |
| `ipv4`      | IPv4 addresses in dotted decimal                                          |
| `hash`      | 32-byte roots and their hexadecimal text                                  |
| `endpoint`  | the URLs of the Beacon API, through the `url` crate                       |
| `config`    | the settings, from environment variables                                  |
| `clock`     | slots, epochs and the current slot                                        |
| `status`    | the status handshake, and keeping the status up to date                   |
| `bootstrap` | taking up a Beacon API, and the status made of its answers                |
| `startup`   | the order of the start: nothing is joined before the API is verified      |
| `ingress`   | the datagrams, and what is reported of sending them                       |
| `network`   | how to join the network, and what to do on each of its events             |

Most modules end with the laws of what they hold, as proof functions.

Not proved, but taken on trust, is that `url::Url::parse` and `url::Url::join` are functions of
their arguments alone.

`app/` is the program around the library: the process environment, HTTP, the datagram socket,
logging and Lighthouse itself. It needs the crates `lighthouse_network`, `eth2_network_config`,
`task_executor` and `types` of Lighthouse v8.2.0. They are not on the crates registry, so
`Cargo.toml` does not name them: they have to be added from Lighthouse's repository to build the
program. The library and its tests do without them.

`tests/` runs the library.

## Run

Start `forkt-sensor` first so that the ingress socket exists, and set `FORKT_BEACON_API_URL`.
Expose TCP/UDP 9000 and UDP 9001 for best peer connectivity. Persist
`FORKT_CONSENSUS_DATA_DIR` to retain the libp2p identity.
