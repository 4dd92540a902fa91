//! The logic of WebSocket sessions with the Bybit exchange: the requests that are sent, the events
//! that are taken from the messages, the states of tickers that are kept up to date, and the loop
//! that serves a connection.
pub mod ambient;
pub mod error;
pub mod event_loop;
pub mod events;
pub mod handler;
pub mod json;
pub mod outbox;
pub mod request;
pub mod snapshots;
pub mod stream;
pub mod table;
pub mod text;
pub mod topics;
