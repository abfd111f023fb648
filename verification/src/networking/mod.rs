//! What the library makes of the answers of speedrunning websites. Talking
//! to the websites is left to the host.

pub mod speedrun_com;
