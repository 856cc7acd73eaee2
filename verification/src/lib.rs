//! Translation between plain HTTP exchanges and the invocation-event wire
//! shape that a Lambda runtime interface emulator consumes: an inbound
//! request is encoded as an invocation envelope, and the emulator's JSON
//! answer is decoded back into an outbound HTTP response.

pub mod envelope;
pub mod jsonval;
pub mod response;
pub mod strmap;
