//! Audio device selection: the device registry that merges remembered
//! preferences with the devices the audio server reports, the session state
//! a desktop shell drives, and the decisions of the blocking control channel.

pub mod data;
pub mod label;
pub mod lookup;
pub mod pulsewrapper;
pub mod reconcile;
pub mod session;
