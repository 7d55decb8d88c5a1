//! Keeps the addresses of Duck DNS domains pointed at the machine's public address.
//!
//! The library reads what the command line says (a duration, the line that names a service
//! to ask for the public address), reads what such a service replies, decides when an
//! update is due, writes the request to the update service and reads its answer. What goes
//! over the network is left to the program around it.

pub mod check_ip_opts;
pub mod commands;
pub mod dns_name;
pub mod duck_dns;
pub mod net;
pub mod opts;
pub mod parse_duration;
pub mod public_ip;
pub mod text;
pub mod web_url;
