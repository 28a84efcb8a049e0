pub mod input_stream;
pub mod node;
pub mod node_arena;
pub mod parse_errors;
pub mod parser;
pub mod text;
pub mod token;
pub mod token_states;
pub mod tokenizer_spec;
pub mod tokenizer;
