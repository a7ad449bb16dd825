pub mod deploy;
pub mod discovery;
pub mod gradle;
pub mod logcat;
