# safety_rules

The rules by which a validator of a two-chain consensus decides what it may sign,
written and proved in Verus.

The library in `src/` decides. It reads no storage, verifies no signature and signs
nothing itself: a request that needs the outside runs in steps, and each step takes
the next answer and either refuses or hands over to the next step. What a request
leads to is stated for every answer that the outside may give, and `src/laws.rs`
states what holds of the rules as a whole: that through any history no two votes are
of one round of an epoch, that epochs and waypoints only move forward, that the rules
hold a signer only in an epoch, what signer a refused request to initialize leaves,
that every query is counted once before it runs and once when it is answered, and more.

`app/` is a service around the library. It performs what each step asks for, against
the storage, the signer and the consensus types of a node, which it reaches through
traits, and reports to the node's log and counters. `tests/` runs the library.
