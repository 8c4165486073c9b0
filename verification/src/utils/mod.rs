//! Host facilities as plain values: errors, time, wait objects.
pub mod epoll;
pub mod eventfd;
pub mod os_error;
pub mod time;
