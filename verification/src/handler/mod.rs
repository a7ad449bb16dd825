pub mod build_tab;
pub mod emulator;
pub mod logs;
