# twin

Sets up a twin of a network: a swarm of fresh validators that takes over a copy of a production
database and goes on from there.

`src/` is a Verus library. It decides what is done next and what each reply means: which snapshot
is restored, whether the database is reported on, how the databases of the validators are
replaced, how the rescue blob is made and bootstrapped, with which waypoint each validator is
restarted, and when the whole counts as done.
Everything that touches the outside is a `Task`. A `Session` (a run whose steps depend on what it
finds out) or an `Errand` (a single procedure) hands out one task at a time and takes the reply.

- `plan` holds the tasks, the replies and the plans that put tasks in order.
- `procedures` and `stages` draw the plans up; `findings` says what each reply adds or ends.
- `session` and `errand` follow the plans.
- `credentials` and `snapshot` are the computations in between.
- `twin` is where a caller starts.
- `laws` states what holds of runs as a whole.
- `outside` holds everything that is taken from other crates without proof.

`app/` carries the tasks out: files and the archive of snapshots in `files`, the swarm, the chain
and the databases in `network`.
