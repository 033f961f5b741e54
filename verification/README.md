# vercel-cache-helper

Saves and restores the build output (`.build`) and local cache of a fastn
project in the Vercel remote cache.

- `src/` is the verified library (Verus): cache keys, content hashes, zstd
  detection, the choice of files to archive, the remote-cache client that
  builds artifact requests, and the step-by-step decisions of the download
  and upload commands, each with its contract and the laws that relate them.
- `app/` is the command-line tool around it: argument and environment
  handling, the file system, tar/zstd archives, HTTP and the progress bar.
- `tests/` runs the library on concrete values.
