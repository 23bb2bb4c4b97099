# cubefs_bond

A host-side agent that mounts CubeFS volumes for pods: on request it writes a
volume's `cfs-client` configuration and start script under `/cfs/bond/{volume}`,
creates the log and mount directories, starts the client and checks that it
keeps running.

* `src/` is the verified library. It derives paths, scripts and shell commands
  from a volume name (`utils`), validates and completes a client configuration
  (`bond`), runs the start-up as a state machine whose actions the caller
  performs (`startup`, with `io` as the vocabulary and `errors` for its error
  codes), and computes the answers of the HTTP routes (`routes`). The `mount`
  and `umount` front ends (`mount`, `umount`, and the salvo `controller` with its
  `config_map`) share the start-up in `launch`. `laws` states properties of the
  whole. `sys` holds the two standard-library computations it relies on.
* `app/` is the HTTP server: rocket routes, the salvo handlers, the serde copies
  of the configuration types, and the code that performs file-system and
  process work.
