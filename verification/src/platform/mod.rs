pub mod appimage;
pub mod dmg;
pub mod nsis;
