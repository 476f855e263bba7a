//! What the interactive front end keeps while results are fetched.

pub mod state;
