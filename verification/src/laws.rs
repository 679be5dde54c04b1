//! What holds of every scan, whatever the filesystem holds and the operator
//! answers: stated over the runs of the transition system and proved.

pub mod counting;
pub mod dedup;
pub mod gating;
pub mod progress;
pub mod run;
