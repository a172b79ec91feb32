//! An interactive command-line front end: a raw-mode line editor, a
//! quote-aware tokenizer, and a small builtin dispatch table.
//!
//! The modules here hold the decision logic only; reading terminal bytes,
//! painting the screen, changing directory and launching processes are done
//! by a thin unverified driver around this library.

pub mod builtins;
pub mod editor;
pub mod guard;
pub mod screen;
pub mod text;
pub mod tokenizer;
