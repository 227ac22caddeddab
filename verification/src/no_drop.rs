pub mod no_drop_empty;
pub mod no_drop_msg;
pub mod no_drop_pass;
pub mod no_drop_plain;
