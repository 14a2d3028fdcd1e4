//! The services a request goes through, and the state they share.

pub mod buddha;
pub mod discord;
pub mod state;

pub use buddha::BuddhaServiceImpl;
pub use discord::DiscordNotifyServiceImpl;
pub use state::AppState;
