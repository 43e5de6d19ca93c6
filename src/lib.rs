//! An interactive TCP client's coordination logic: classifying console
//! commands, deciding the socket effect of each, decoding input chunks and
//! received data, and the main loop's state machine.
pub mod command;
pub mod text;
pub mod producer;
pub mod poller;
pub mod session;
