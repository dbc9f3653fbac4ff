pub mod address;
pub mod bridge;
pub mod codec;
pub mod device;
pub mod interface;
pub mod param;
pub mod route;
pub mod side;
pub mod sync;
pub mod sync_laws;
pub mod value;
