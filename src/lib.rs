//! Decoder for the CRX browser-extension container: magic marker, format
//! version, public key, optional signature and the inner archive payload.
pub mod browser;
pub mod cli;
pub mod uncrx;
