# bndr_persist

Crash-recoverable persistent state for a small kernel, verified with Verus.

Every piece of state lives in a two-slot ledger on a block device: a record
carries a generation, a format epoch, a CRC and a payload, and recovery selects
the newer of two valid slots. A transaction reads both slots, decides from
their contents alone, writes only the inactive slot, flushes, reads both slots
back and checks that recovery now selects exactly what it meant to write.

- `layout`, `codec`, `checksum`, `digest`: wire constants, little-endian
  helpers, CRC-32 and FNV-1a, and SHA-256 (computed by the `sha2` crate).
- `superblock`, `record`, `ledger`, `io`: the superblock, the record format and
  recovery, and the sector-device boundary (`DurableSectorIo`) that every
  transaction runs on; `memory` is an in-memory device for tests.
- `boot_state`, `boot_tx`: the boot counter and device-health session.
- `manifest_state`, `manifest_tx`, `key_policy_tx`: the manifest anti-rollback
  floor and its ordered signing-key policy.
- `maintenance_*`, `signed_plan*`: the maintenance authorization audit,
  execution, step and plan journals and the signed maintenance program.
- `package`: package-manager values that cross the syscall boundary.
- `install_policy`: the install/update rule for an admitted package (same
  package, same signer, higher version; reinstall after removal), the boot
  operation each outcome reports, the candidate id, and the live-directory
  update after an uninstall.

Each transaction's contract states its decision as a spec function of the
device contents, the exact evidence it reports, that it changes no sector but
the one slot it commits, and that it fails with anything but an I/O error only
when the device did not keep the sector it wrote; in that case the error is a
spec function of the two slots read back. `DurableSectorIo` keeps a ghost log
of the reads, writes (with the bytes written) and flushes issued, and each contract states the calls a
transaction makes over it: none when it refuses before reading, reads only
when it refuses after reading, and the exact sequence when it succeeds. The public `lemma_*` proof functions state the
laws that hold across calls, such as that a committed record is what recovery
selects next, that floors and sequences never move backwards, and that replays
are read-only.
