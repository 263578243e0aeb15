//! Reading the Boot Configuration Data (BCD) store of Windows: the binary
//! device packets that BCD elements hold, the element and object type
//! codes, and the well-known object identifiers.

pub mod bytes;
pub mod text;
pub mod guid;
pub mod device;
pub mod names;
pub mod element;
pub mod object;
