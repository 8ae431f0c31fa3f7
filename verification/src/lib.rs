pub mod cross_chain;
pub mod error;
pub mod events;
pub mod ids;
pub mod models;
pub mod persist;
pub mod sdk;
pub mod stable_balance;
pub mod text;
pub mod time;

use vstd::prelude::*;

