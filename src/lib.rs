pub mod android;
pub mod command;
pub mod device;
pub mod dispatch;
pub mod env;
pub mod ios;
pub mod project;
pub mod system_profile;
pub mod target;
pub mod text;
