//! System features for desktop and mobile applications.

pub mod authentication;
pub mod bus;
pub mod camera;
pub mod encoding_laws;
pub mod file_location;
pub mod file_picker;
pub mod fnv;
pub mod location;
pub mod notifications;
pub mod open;
pub mod path;
pub mod path_laws;
pub mod percent;
pub mod sorted;
pub mod table;
pub mod text;
pub mod text_laws;
pub mod time;
pub mod wording_laws;
