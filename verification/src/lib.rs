pub mod defaults;
pub mod entities;
pub mod error;
pub mod firefish;
pub mod generic;
pub mod headers;
pub mod mastodon;
pub mod megalodon;
pub mod misskey;
pub mod pleroma;
pub mod request;
pub mod response;
pub mod strutil;
pub mod transport;
