//! Reading a temperature from a home-automation hub: the requests to send,
//! the classification of what comes back, and the rule that picks the text
//! holding the temperature out of an entity's state.

pub mod config;
pub mod datasource;
pub mod text;
