//! What holds between the encoder and the decoder, proved of the format as
//! `wire` and `grammar` state it.

pub mod dispatch;
pub mod placement;
pub mod round_trip;
pub mod truncation;
