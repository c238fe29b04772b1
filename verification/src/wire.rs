//! Reading BGP values from the wire.

pub mod deserializer;
