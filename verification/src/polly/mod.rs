//! Dispatch of events to subscribers.
pub mod event_manager;
