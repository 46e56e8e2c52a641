pub mod accounts;
pub mod address;
pub mod gateway;
pub mod governance;
pub mod key_export;
pub mod keyed;
pub mod maintenance;
pub mod root;
pub mod text;
pub mod u256;
