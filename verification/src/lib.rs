//! Conversion of the tensors of a trained network to the fixed-point binary of
//! its evaluator: the tensors' names, their shapes, the merge of a factoriser,
//! the fixed-point buffers and the layout of the files.

pub mod cli;
pub mod convert;
pub mod error;
pub mod header;
pub mod keys;
pub mod laws;
pub mod layout;
pub mod merge;
pub mod network;
pub mod quantise;
pub mod run;
pub mod text;
