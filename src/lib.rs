//! Desktop OAuth2 login core: loopback callback handling, authorization URL
//! construction, token exchange requests and responses, the refresh schedule
//! and the session state machine; and the music client's value types around
//! it: search results and their table rows, the search box, tabs and screens.
pub mod authorize;
pub mod callback;
pub mod config;
pub mod model;
pub mod query;
pub mod rows;
pub mod scheduler;
pub mod search;
pub mod screen;
pub mod session;
pub mod text;
pub mod token;
pub mod ui;
