//! Timing classification and framing state machines for a two-node Morse link:
//! duration classification, debouncing, the transmit encoder, the receive
//! decoder, the scrolling display buffer and the interrupt latency probe.

pub mod bench;
pub mod debounce;
pub mod decoder;
pub mod display;
pub mod latency;
pub mod lcd;
pub mod morse;
pub mod timing;
pub mod transmit;
