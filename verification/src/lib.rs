//! A verified core for handing file-type classifications across a foreign
//! boundary as JSON text.

pub mod cstring;
pub mod filetype;
pub mod invoke;
pub mod json;
pub mod number;
