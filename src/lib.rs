//! Camera pose-sensing core: raw frame normalisation, model input
//! preparation, landmark decoding, the pose engine's model lifecycle, the
//! capture controller's state machine, and the session analytics that sit
//! beside it.

pub mod capture;
pub mod engine;
pub mod frame;
pub mod landmark;
pub mod pixel;
pub mod report;
pub mod streak;
