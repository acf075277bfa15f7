//! A price oracle over several streaming feeds: what each feed's listener
//! does next, what a frame yields, which signed averages count towards the
//! aggregate, and the keys that vouch for them.

pub mod average_btcusd;
pub mod command;
pub mod counter;
pub mod key_counter;
pub mod price;
pub mod ws_process;
