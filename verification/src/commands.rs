//! What the command-line tool does with its input, apart from reading and
//! sending it.

pub mod upload_image;
