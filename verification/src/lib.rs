//! Container format for contract-associated web applications: a binary
//! envelope bundling small metadata bytes with an xz-compressed tar archive
//! of static assets, with strict size caps on untrusted input.

pub mod archive;
pub mod endian;
pub mod envelope;
pub mod webapp;

pub use webapp::WebApp;
pub use webapp::WebContractError;

