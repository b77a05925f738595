//! The four-byte type code of a PNG chunk: validation at construction, and
//! the four flags that the case of its letters encodes.

pub mod ascii;
pub mod chunk_type;
pub mod error;
pub mod lemmas;
pub mod text;
