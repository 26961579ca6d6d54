//! A small greeting library: it builds the fixed report that the program
//! prints — a banner, a separator, the Unix timestamp, the working
//! directory (or a fallback), a sample addition, and a closing line.
//! Every line is specified exactly as a sequence of characters.

pub mod digits;
pub mod report;
