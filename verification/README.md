# storage

A Solana program that stores a color object in program-owned accounts and
moves it between them, with the helpers of its command-line client, written
in Verus.

- `src/` is the verified library: the instruction processor (`program`), the
  account data layout (`layout`), the client helpers (`client`), the YAML
  reading they rely on (`yaml`) and the proved properties (`laws`).
- `app/` is the command-line client and the runtime entry point: reading
  files and keypairs, parsing arguments, converting the runtime's accounts,
  and running the build, deploy and client commands as child processes.
- `tests/` runs the library on concrete instructions, accounts and
  configurations.
