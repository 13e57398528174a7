pub mod data_store;
pub mod email;
pub mod email_client;
pub mod error;
pub mod login_attempt_id;
pub mod password;
pub mod two_fa_code;
pub mod user;
