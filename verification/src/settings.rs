//! Application settings: which backend engine is used, where its
//! configuration goes, and the host application's preferences.

use vstd::prelude::*;

verus! {

/// The supported backend engines.
#[derive(Debug, Clone, Copy, PartialEq, Eq, Structural)]
pub enum BackendType {
    V2ray,
    Xray,
    SingBox,
}

/// How the backend is selected and where its generated configuration goes.
#[derive(Debug, PartialEq)]
pub struct BackendConfig {
    pub backend_type: BackendType,
    pub binary_path: Option<String>,
    pub config_output_dir: Option<String>,
}

impl Clone for BackendConfig {
    fn clone(&self) -> (r: Self)
        ensures
            r.backend_type == self.backend_type,
    {
        BackendConfig {
            backend_type: self.backend_type,
            binary_path: self.binary_path.clone(),
            config_output_dir: self.config_output_dir.clone(),
        }
    }
}

impl Default for BackendConfig {
    fn default() -> (r: Self)
        ensures
            r.backend_type == BackendType::Xray,
            r.binary_path is None,
            r.config_output_dir is None,
    {
        BackendConfig { backend_type: BackendType::Xray, binary_path: None, config_output_dir: None }
    }
}

/// The interface languages.
#[derive(Debug, Clone, Copy, PartialEq, Eq, Structural)]
pub enum Language {
    English,
    Russian,
}

impl Default for Language {
    fn default() -> (r: Self)
        ensures
            r == Language::English,
    {
        Language::English
    }
}

/// Everything the host application persists about its own behaviour.
#[derive(Debug, Clone, PartialEq)]
pub struct AppSettings {
    pub version: u32,
    pub backend: BackendConfig,
    pub socks_port: u16,
    pub http_port: u16,
    pub auto_update_subscriptions: bool,
    pub subscription_update_interval_secs: u64,
    pub auto_update_geodata: bool,
    pub geodata_update_interval_secs: u64,
    pub language: Language,
    pub minimize_to_tray: bool,
    pub notifications_enabled: bool,
    pub onboarding_complete: bool,
}

impl Default for AppSettings {
    fn default() -> (r: Self)
        ensures
            r.version == 1,
            r.backend.backend_type == BackendType::Xray,
            r.backend.binary_path is None,
            r.backend.config_output_dir is None,
            r.socks_port == 1080,
            r.http_port == 1081,
            r.auto_update_subscriptions == true,
            r.subscription_update_interval_secs == 86400,
            r.auto_update_geodata == true,
            r.geodata_update_interval_secs == 604800,
            r.language == Language::English,
            r.minimize_to_tray == true,
            r.notifications_enabled == true,
            r.onboarding_complete == false,
    {
        AppSettings {
            version: 1,
            backend: BackendConfig::default(),
            socks_port: 1080,
            http_port: 1081,
            auto_update_subscriptions: true,
            subscription_update_interval_secs: 86400,
            auto_update_geodata: true,
            geodata_update_interval_secs: 604800,
            language: Language::English,
            minimize_to_tray: true,
            notifications_enabled: true,
            onboarding_complete: false,
        }
    }
}

} // verus!
