//! Input devices as subjects: each decodes its raw input and hands the
//! result to the one observer attached to it.

pub mod keyboard;
