//! A Mac that is read from its OpenBubbles dumb file and validated through a
//! NAC server, and the keystore that holds the keys of its client.
pub mod dumb_laws;
pub mod error;
pub mod hw_body;
pub mod identity_laws;
pub mod keystore;
pub mod macos_remote;
pub mod nac;
pub mod nac_laws;
pub mod nac_step_laws;
pub mod os_config;
pub mod os_config_laws;
pub mod outside;
pub mod proto;
pub mod proto_laws;
pub mod text;
pub mod text_laws;
pub mod total_laws;
pub mod udid;
