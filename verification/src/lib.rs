//! Request and session core of an administration panel.
//!
//! The panel logs into a server and shows lists of what the server holds.
//! It draws many times a second on one thread and must never wait for the
//! network there. So every operation is a request that is handed to a
//! transport and a promise that is looked at again on each frame:
//!
//! - [`app`] holds the session (login and cookies), the promise of each
//!   operation key, and the sweep that logs the user out when a response
//!   says that the session is over;
//! - [`resource`] decodes responses, by the operation that they answer;
//! - [`proto`] holds the messages and their JSON shapes;
//! - [`render`] holds what the pages decide: which list to ask for, what a
//!   row shows, when the login has succeeded;
//! - [`json`] and [`wire`] are the calls into other crates, whose contracts
//!   are taken on trust;
//! - [`string_map`] and [`text`] are the small tools under all of this.
//!
//! The library sends nothing and draws nothing. Its steps take what the user
//! did and return the requests to send; the outcome of a request comes back
//! through [`app::TemplateApp::resolve`].

pub mod app;
pub mod json;
pub mod proto;
pub mod render;
pub mod resource;
pub mod string_map;
pub mod text;
pub mod wire;
