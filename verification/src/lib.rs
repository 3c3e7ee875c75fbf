//! Backend core for a desktop chat client that forwards conversations to two
//! hosted language-model providers.  The library builds each provider's JSON
//! request body, decides how an HTTP reply is classified, parses reply bodies,
//! and loads the static model catalog; the surrounding shell performs the
//! actual network and file I/O.
pub mod cmd;
pub mod dto;
pub mod json;
pub mod llm;
pub mod parse;
pub mod text;
pub mod wire;
