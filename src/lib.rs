//! Identity model and colour logic for a chat client's roster: hex colour
//! codec, a palette of semantic colours, access ranks and participant
//! identities with their ordering.

pub mod color;
pub mod palette;
pub mod seed;
pub mod user;
