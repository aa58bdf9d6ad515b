pub mod decode;
pub mod pointer;
pub mod register;
pub mod i8080;
