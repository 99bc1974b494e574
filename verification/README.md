# skel_cd

A verified instruction decoder for a small 16-bit processor.

- `src/registers.rs`: the general, base, index and address registers and the
  functions that name them.
- `src/decoder.rs`: the decoded instruction types, the field and table
  specifications, and `decode`, whose contract is the whole decoding table.
- `src/laws.rs`: properties that relate decodings of related words (the
  direction bit, compare/test as non-saving forms, the unambiguous operand
  encoding, the jump conditions).
- `src/datapath.rs`: one clock cycle of the datapath (the bus, the register
  and memory inputs, the instruction and flags registers).
- `src/machine.rs`: start values and start states of the processor, the stop
  rules of clock-by-clock runs, and hexadecimal text of a value.
- `src/viewer.rs`: the decisions of the interactive simulator for each key.
- `app/lib.rs`: running the external assembler, and the terminal loop of the
  interactive simulator over a processor model supplied by its caller.
