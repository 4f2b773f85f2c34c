//! Quality assessment of captured frames: blur detection, exposure
//! analysis, the overall score and quality-gated capture.

pub mod blur;
pub mod capture;
pub mod exposure;
pub mod validator;
