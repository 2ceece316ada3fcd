pub mod camera;
pub mod controller;
pub mod gpio;
pub mod net;
pub mod protocol;
