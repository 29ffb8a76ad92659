//! Beat-synchronised animation channels for a light and graphics
//! installation of hexagonal screens.
//!
//! Beats trigger pulses, slides and sweeps on many independent channels.
//! Each channel is driven by one animation at a time: before channels are
//! driven anew, a record of those that are superseded is broadcast, and an
//! animation that finds its channel in the record at its next poll ends
//! without another write.
//!
//! All numbers are integers. Levels are counted in millionths, time in
//! microseconds, tempo in millionths of a beat per minute.
pub mod anim;
pub mod beat;
pub mod cancel;
pub mod channel;
pub mod convergence;
pub mod elements2d;
pub mod hexagon;
pub mod meta_phys;
pub mod meta_tunnelgon;
pub mod panel;
pub mod pool;
pub mod protocol;
pub mod punch;
pub mod scheduler;
pub mod settings;
pub mod storage;
pub mod task;
pub mod tubes;
pub mod tubes_anim;
pub mod tunnelgon;
pub mod tunnelgon_anim;
