//! Decisions of a small command-line client for a web portal: what is sent
//! at login, what is kept of the answer, what is replayed on a redemption,
//! and how the portal's answer is judged. Reading the terminal, the
//! credential file and the network are left to the caller.

pub mod login;
pub mod portal;
pub mod record;
pub mod redeem;
pub mod text;
