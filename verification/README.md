# change_streams

Verified core of a client for [Spanner change
streams](https://cloud.google.com/spanner/docs/change-streams).

`src/` is a Verus library without I/O. It checks and quotes the name of a change stream, builds the
`SELECT ChangeRecord FROM READ_<stream>(...)` statement with its parameters, and decodes the
`ChangeRecord` column of each row into typed records. `app/` runs it against a database client.

A query for a single partition may return partition start records that contain tokens for child
partitions. It is the caller's responsibility to run queries for those partitions.
