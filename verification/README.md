# redis_cache

The cache database of a trader, kept in Redis, with a log of commands in front of it.

Commands that change the cache are appended to a log first. A background task carries them out in
Redis and commits them in the log, from the second command of a log on and in the order in which
they were appended; a read carries out what still waits before it asks Redis. The first command of
a log stays in it and is not carried out.

- `src/` is the library, written in Verus: keys and their layout (`keys`, `key_laws`, `config`),
  commands and their logged form (`command`), the log (`wal`, `wal_laws`), the Redis commands that
  carry out a command (`pipeline`) and read or scan keys (`read`, `scan`), the background task
  (`writer`), the drain before a read (`drain`), what both promise together with the log
  (`delivery`), the encodings of payloads (`encoding`), and the database and its interface to the
  cache (`database`, `adapter`). `wire` and `json` hold what is taken on trust of the `bytes`,
  `redis`, `serde_json` and `rmp-serde` crates.
- `app/` connects the library to a Redis server, to an embedded store on disk and to the clock.
- `tests/` runs the library on concrete values.
