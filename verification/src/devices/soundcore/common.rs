pub mod bytes;
pub mod device;
pub mod flag;
pub mod modules;
pub mod packet;
pub mod parsing;
pub mod structures;
