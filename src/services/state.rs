use vstd::prelude::*;
use crate::config::Config;
use crate::services::buddha::BuddhaServiceImpl;
use crate::services::discord::DiscordNotifyServiceImpl;

verus! {

/// The state a request handler works with: settings and both services.
pub struct AppState {
    pub config: Config,
    pub buddha_service: BuddhaServiceImpl,
    pub notify_service: DiscordNotifyServiceImpl,
}

impl AppState {
    pub fn new(
        config: Config,
        buddha_service: BuddhaServiceImpl,
        notify_service: DiscordNotifyServiceImpl,
    ) -> (r: AppState)
        ensures
            r.config == config,
            r.buddha_service == buddha_service,
            r.notify_service == notify_service,
    {
        AppState { config, buddha_service, notify_service }
    }
}

} // verus!
