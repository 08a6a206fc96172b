pub mod artifact_manager;
pub mod bundler;
pub mod container_runner;
pub mod image;
pub mod limits;
pub mod oom_detector;
pub mod timestamps;
