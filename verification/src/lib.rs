//! Encrypted instant messaging: the cipher shared by the chat programs and
//! the decisions that their clients and servers take on each message.
pub mod crypto;
pub mod text;
pub mod chat_server;
pub mod user_server;
pub mod program;
pub mod chat_client;
pub mod b64_client;
pub mod echo_server;
pub mod echo_client;
