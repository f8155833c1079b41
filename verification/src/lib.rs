//! Verified planning of Objective-C message sends for a small AppKit launcher.
//!
//! The library never touches the runtime. It decides which native call comes
//! next and what each returned address means; the caller performs the calls.

pub mod app_name;
pub mod launch;
pub mod message;
pub mod ns;
pub mod objc;
pub mod run;
pub mod text;
