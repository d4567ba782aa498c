//! Le vocabulaire du comportement que le menu manipule : les intentions et
//! les actions tenues.

pub mod intention;
pub mod tenue;
