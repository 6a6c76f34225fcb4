//! On-call status evaluation: which shifts of a user cover "now", which
//! start soon, and how the upcoming shifts are rendered as text.

pub mod duty;
pub mod present;
pub mod request;
pub mod shift;
pub mod text;
pub mod time;
