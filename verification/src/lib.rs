//! An HTML5 tokenizer and tree builder whose behaviour is stated in contracts
//! and proved with Verus.

pub mod html5_parser;
pub mod html5test;
