pub mod brightness;
pub mod clock;
pub mod display;
pub mod engine;
pub mod exchange;
pub mod framebuffer;
pub mod gamma;
pub mod hub75;
pub mod mario;
pub mod outputs;
pub mod recorder;
