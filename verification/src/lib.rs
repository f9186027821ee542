//! A bounded single-producer/single-consumer channel over a fixed ring of
//! slots.
//!
//! [`ring`] holds the ring itself and its cursor protocol, [`step`] the
//! outcome of one attempt to send or receive, [`laws`] what holds of every
//! run of the protocol, and [`channel`] the two handles that share one ring
//! between a producing and a consuming thread.

pub mod channel;
pub mod error;
pub mod laws;
pub mod ring;
pub mod step;
mod sync;

pub use channel::channel;
pub use channel::tells_live;
pub use channel::Consumer;
pub use channel::Producer;
pub use channel::BUFFER_SIZE;
pub use channel::GONE;
pub use channel::LIVE;
pub use channel::SPSC;
pub use error::RecvError;
pub use error::SendError;
pub use ring::Ring;
pub use ring::RingView;
pub use step::screen_send;
pub use step::RecvStep;
pub use step::SendStep;
