pub mod closure;
pub mod dylib;
pub mod macho;
