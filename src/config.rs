use vstd::prelude::*;

verus! {

/// Settings read from the configuration file; every one may be absent.
#[derive(Debug, Clone)]
pub struct AppConfig {
    pub slm_url: Option<String>,
    pub rag_system: Option<String>,
    pub prompt_system: Option<String>,
    pub user_profile: Option<String>,
    pub system_settings: Option<String>,
}

impl Default for AppConfig {
    fn default() -> (r: Self)
        ensures
            r.slm_url is None,
            r.rag_system is None,
            r.prompt_system is None,
            r.user_profile is None,
            r.system_settings is None,
    {
        AppConfig {
            slm_url: None,
            rag_system: None,
            prompt_system: None,
            user_profile: None,
            system_settings: None,
        }
    }
}

} // verus!
