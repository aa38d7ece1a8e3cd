pub mod args;
pub mod backup;
pub mod check;
pub mod checksum_error;
pub mod checksum_file;
pub mod fatal;
pub mod paths;
pub mod record_text;
pub mod restore;
