pub mod format;
pub mod headers;
pub mod httpclient;
pub mod httpclient_mod;
pub mod httpserver_mod;
pub mod json;
pub mod kafka;
pub mod msbase;
pub mod settings;
