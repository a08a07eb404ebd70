//! Request handling rules of the speech-recognition API server: request
//! authorization and quotas, upload form handling, job command lines,
//! background job progress and the mapping of errors to responses.

pub mod text;
pub mod output_type;
pub mod records;
pub mod quota;
pub mod clock;
pub mod auth;
pub mod error;
pub mod paths;
pub mod upload;
pub mod command;
pub mod ids;
pub mod v1;
pub mod job;
pub mod v2;
pub mod config;
pub mod create_token;
pub mod create_user;
pub mod decode_token;
