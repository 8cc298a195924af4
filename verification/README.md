# qsnap

Snapshot and restore the EBS drives of a Qumulo cluster in AWS.

`src/` is the library, verified with Verus:

- `ec2` — the parts of EC2's records and requests that the tool reads or fills, with views.
- `aws` — the filters of the describe requests and what is kept of their answers.
- `util` — checks on volume states and statuses, tag lookup, region names (`region`).
- `snapshot` — the tags that tie a volume snapshot to its cluster snapshot, node and device.
- `listing` — the listing of cluster snapshots: one line per unique id.
- `restore` — what a restore reads from a snapshot's tags.
- `snapshot_run`, `restore_run` — the course of a snapshot and of a restore, as state
  machines that the program drives with what EC2 answers.
- `snapshot_effects`, `restore_effects` — what any finished run of either machine asks of
  EC2, however long it waited: one snapshot request per device; the detach, delete,
  create and attach requests of a restore, in order.
- `round_trip` — what a snapshot run leaves behind, read back by a restore and by a listing.

`app/` is the command line program: it parses arguments, talks to EC2 through rusoto,
prints, and runs the two machines.
