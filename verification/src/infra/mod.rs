pub mod actix;
pub mod bcrypt;
pub mod in_memory;
pub mod sql;
