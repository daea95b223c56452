//! Networking helpers: feeds, robots.txt, web drivers and HTTP clients.
pub mod readability;
pub mod reqwest;
pub mod rss_client;
pub mod webdriver;
