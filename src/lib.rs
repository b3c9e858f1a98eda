//! Decision logic of an invitation-gated RSVP service: rate limiting of
//! clients and invitations, invitation-code authentication, the guest and
//! administrator record workflows, and the notification text.

pub mod limiter;
pub mod address;
pub mod text;
pub mod guest;
pub mod auth;
pub mod invite;
pub mod admin;
pub mod notify;
