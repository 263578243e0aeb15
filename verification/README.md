# bcd_dump

Reads the Boot Configuration Data (BCD) store of Windows, the registry hive
found at `/EFI/Microsoft/Boot/BCD`, and prints its objects and their
elements.

- `src/` is the library, verified with Verus: the binary device packets
  (`device`), elements and their type codes (`element`), object type codes
  and titles (`object`), the names of well-known GUIDs and element types
  (`names`), GUIDs (`guid`), and text and integer helpers (`text`, `bytes`).
- `app/main.rs` opens the hive with `nt_hive`, walks its `Objects` key and
  prints what the library reads.
- `tests/` runs the library on hand-made packets and elements.
