//! What the operations of the library are for, stated of their calls: each law takes the
//! arguments and the result of a call and says how they relate.

pub mod asking;
pub mod configs;
pub mod framing;
pub mod members;
pub mod packets;
pub mod reading;
pub mod serving;
pub mod streams;
pub mod values;
pub mod words;
