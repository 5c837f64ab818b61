//! Text as sequences of characters: the vocabulary in which every summary is
//! specified, and the verified routines that compute it.
//!
//! A text is modelled as a `Seq<char>`, the view of `str` and `String`.
//! Executable code works on `Vec<char>` so that characters can be indexed in
//! constant time; [`convert::chars_of`] and [`convert::string_of`] convert
//! at the boundary.
pub mod buffer;
pub mod convert;
pub mod lines;
pub mod matching;
pub mod number;
pub mod space;
