//! Mediated access to a laptop embedded controller (EC): register decoding,
//! the line protocol spoken by the privileged helper, and the host-side
//! supervision of that helper.

pub mod ec;
pub mod protocol;
pub mod sidecar;
pub mod supervisor;
pub mod system;
pub mod text;
