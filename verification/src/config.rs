//! Configuration data: the rendering options a user persists, the five-level
//! color palette, and the manager that hands fields out and takes them in.
//! Reading and writing the configuration file is the surrounding program's
//! business; this module only owns the values.

use vstd::prelude::*;

verus! {

/// Whether the month ruler is shown when the configuration does not say.
pub fn default_show_date() -> (r: bool)
    ensures
        r == true,
{
    true
}

/// One hex color per contribution level, level 0 (no activity) to level 4.
#[derive(Debug, Clone)]
pub struct ColorConfig {
    pub level_0: String,
    pub level_1: String,
    pub level_2: String,
    pub level_3: String,
    pub level_4: String,
}

impl Default for ColorConfig {
    /// The familiar light-gray-to-deep-green palette.
    fn default() -> (c: ColorConfig)
        ensures
            c.level_0@ == "#ebedf0"@,
            c.level_1@ == "#9be9a8"@,
            c.level_2@ == "#40c463"@,
            c.level_3@ == "#30a14e"@,
            c.level_4@ == "#216e39"@,
    {
        ColorConfig {
            level_0: "#ebedf0".to_owned(),
            level_1: "#9be9a8".to_owned(),
            level_2: "#40c463".to_owned(),
            level_3: "#30a14e".to_owned(),
            level_4: "#216e39".to_owned(),
        }
    }
}

/// The persisted configuration: provider identity, cache freshness window,
/// and the visual knobs that outlive one invocation.
#[derive(Debug, Clone)]
pub struct Config {
    pub provider: Option<String>,
    pub provider_url: Option<String>,
    pub token: Option<String>,
    pub default_username: Option<String>,
    pub cache_expiry_minutes: u32,
    pub custom_box: Option<String>,
    pub show_date: bool,
    pub colors: ColorConfig,
}

impl Default for Config {
    /// No provider chosen yet, a fifteen-minute cache window, the month
    /// ruler shown, and the default palette.
    fn default() -> (c: Config)
        ensures
            c.provider is None,
            c.provider_url is None,
            c.token is None,
            c.default_username is None,
            c.cache_expiry_minutes == 15,
            c.custom_box is None,
            c.show_date == true,
            c.colors.level_0@ == "#ebedf0"@,
            c.colors.level_1@ == "#9be9a8"@,
            c.colors.level_2@ == "#40c463"@,
            c.colors.level_3@ == "#30a14e"@,
            c.colors.level_4@ == "#216e39"@,
    {
        Config {
            provider: None,
            provider_url: None,
            token: None,
            default_username: None,
            cache_expiry_minutes: 15,
            custom_box: None,
            show_date: true,
            colors: ColorConfig::default(),
        }
    }
}

/// Holds a configuration together with the path it came from. The
/// surrounding program reads the file and constructs this; saving goes
/// the same way back.
pub struct ConfigManager {
    pub config_path: String,
    pub config: Config,
}

impl ConfigManager {
    /// A manager over an already-loaded configuration.
    pub fn from_loaded(config_path: String, config: Config) -> (m: ConfigManager)
        ensures
            m.config_path == config_path,
            m.config == config,
    {
        ConfigManager { config_path, config }
    }

    /// A configuration counts as initialized once a provider is chosen.
    pub fn is_initialized(&self) -> (r: bool)
        ensures
            r == (self.config.provider is Some),
    {
        self.config.provider.is_some()
    }

    pub fn get_provider(&self) -> (r: Option<&str>)
        ensures
            r is Some <==> self.config.provider is Some,
            r is Some ==> r->0@ == self.config.provider->0@,
    {
        match &self.config.provider {
            Some(p) => Some(p.as_str()),
            None => None,
        }
    }

    pub fn set_provider(&mut self, provider: String)
        ensures
            final(self).config.provider == Some(provider),
            final(self).config.provider_url == old(self).config.provider_url,
            final(self).config.token == old(self).config.token,
            final(self).config.default_username == old(self).config.default_username,
            final(self).config.cache_expiry_minutes == old(self).config.cache_expiry_minutes,
            final(self).config.custom_box == old(self).config.custom_box,
            final(self).config.show_date == old(self).config.show_date,
            final(self).config.colors == old(self).config.colors,
            final(self).config_path == old(self).config_path,
    {
        self.config.provider = Some(provider);
    }

    pub fn get_provider_url(&self) -> (r: Option<&str>)
        ensures
            r is Some <==> self.config.provider_url is Some,
            r is Some ==> r->0@ == self.config.provider_url->0@,
    {
        match &self.config.provider_url {
            Some(u) => Some(u.as_str()),
            None => None,
        }
    }

    pub fn set_provider_url(&mut self, url: String)
        ensures
            final(self).config.provider_url == Some(url),
            final(self).config.provider == old(self).config.provider,
            final(self).config.token == old(self).config.token,
            final(self).config.default_username == old(self).config.default_username,
            final(self).config.cache_expiry_minutes == old(self).config.cache_expiry_minutes,
            final(self).config.custom_box == old(self).config.custom_box,
            final(self).config.show_date == old(self).config.show_date,
            final(self).config.colors == old(self).config.colors,
            final(self).config_path == old(self).config_path,
    {
        self.config.provider_url = Some(url);
    }

    pub fn get_token(&self) -> (r: Option<&str>)
        ensures
            r is Some <==> self.config.token is Some,
            r is Some ==> r->0@ == self.config.token->0@,
    {
        match &self.config.token {
            Some(t) => Some(t.as_str()),
            None => None,
        }
    }

    pub fn set_token(&mut self, token: String)
        ensures
            final(self).config.token == Some(token),
            final(self).config.provider == old(self).config.provider,
            final(self).config.provider_url == old(self).config.provider_url,
            final(self).config.default_username == old(self).config.default_username,
            final(self).config.cache_expiry_minutes == old(self).config.cache_expiry_minutes,
            final(self).config.custom_box == old(self).config.custom_box,
            final(self).config.show_date == old(self).config.show_date,
            final(self).config.colors == old(self).config.colors,
            final(self).config_path == old(self).config_path,
    {
        self.config.token = Some(token);
    }

    pub fn get_default_username(&self) -> (r: Option<&str>)
        ensures
            r is Some <==> self.config.default_username is Some,
            r is Some ==> r->0@ == self.config.default_username->0@,
    {
        match &self.config.default_username {
            Some(u) => Some(u.as_str()),
            None => None,
        }
    }

    pub fn set_default_username(&mut self, username: String)
        ensures
            final(self).config.default_username == Some(username),
            final(self).config.provider == old(self).config.provider,
            final(self).config.provider_url == old(self).config.provider_url,
            final(self).config.token == old(self).config.token,
            final(self).config.cache_expiry_minutes == old(self).config.cache_expiry_minutes,
            final(self).config.custom_box == old(self).config.custom_box,
            final(self).config.show_date == old(self).config.show_date,
            final(self).config.colors == old(self).config.colors,
            final(self).config_path == old(self).config_path,
    {
        self.config.default_username = Some(username);
    }
}

} // verus!
