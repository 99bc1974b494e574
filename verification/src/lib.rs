//! Instruction decoding and register naming for a small 16-bit processor.
//!
//! An instruction is a 16-bit word.  Its fields are stored with the most
//! significant bit of each field in the lowest bit position of the word:
//!
//! * bits 15..13: the `rm` field (bit 15 is its least significant bit),
//! * bits 12..10: the `rg` field (bit 12 is its least significant bit),
//! * bits 9..8: the addressing mode,
//! * bit 7: the direction bit (which operand is the source),
//! * bits 6..4: the operation field,
//! * bits 3..0: the instruction class.
//!
//! `decoder::decode` maps every word to exactly one `decoder::Decoded` value;
//! `laws` holds the properties that relate the decodings of related words.
//! `datapath::top_kernel` is one clock cycle of the processor's datapath,
//! `machine` holds the processor's start states and the decisions of its
//! clock-by-clock runs, and `viewer` decides what the interactive simulator
//! shows and does for each key.
pub mod registers;
pub mod decoder;
pub mod laws;
pub mod machine;
pub mod datapath;
pub mod viewer;
pub mod encoding_laws;
