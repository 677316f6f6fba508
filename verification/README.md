# file_exchange

A node that shares files and leases with its peers over libp2p. What the node decides is
verified with Verus; what it does on the network and on disk is done around that.

- `src/` is the verified library: the messages (`codec`), peers, addresses and keys (`peer`,
  `address`, `identity`), the commands and events of the network (`command`, `event`, `search`),
  the loop that drives it (`event_loop`, `network`), what a node does from start to end
  (`session`), and what holds over many turns and between two nodes (`laws`).
- `app/` is the program: the command line, the connections, and the tasks that keep them going.
- `tests/` runs the library with the real libp2p.
