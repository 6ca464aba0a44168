//! A worker pool's dispatch logic, and a handful of small text and number
//! utilities: line search, pig latin, descriptive statistics, request routing
//! and the rendering of notification-server capabilities.
pub mod pool;

pub mod adder;
pub mod caps;
pub mod grep;
pub mod guess;
pub mod lifetimes;
pub mod pig_latin;
pub mod server;
pub mod shapes;
pub mod stats;
pub mod strings;
