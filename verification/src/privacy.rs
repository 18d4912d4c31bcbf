//! Privacy toggles that the host forwards to the webview: blocking typing
//! indicators, read receipts, last-active visibility and link previews.
//! The manager owns the configuration; emitting it to the webview is the
//! host's job, so every mutator hands back the configuration to apply.

use vstd::prelude::*;

verus! {

/// The four privacy toggles, all off by default.
#[derive(Clone, Copy, Debug, PartialEq, Eq, Structural)]
pub struct PrivacyConfig {
    pub block_typing: bool,
    pub block_read_receipts: bool,
    pub hide_last_active: bool,
    pub block_link_previews: bool,
}

impl Default for PrivacyConfig {
    /// Every toggle starts off.
    fn default() -> (r: Self)
        ensures
            !r.block_typing,
            !r.block_read_receipts,
            !r.hide_last_active,
            !r.block_link_previews,
    {
        PrivacyConfig {
            block_typing: false,
            block_read_receipts: false,
            hide_last_active: false,
            block_link_previews: false,
        }
    }
}

/// Owns the current privacy configuration.
pub struct PrivacyManager {
    pub config: PrivacyConfig,
}

impl PrivacyManager {
    /// A manager with the default (all-off) configuration.
    pub fn new() -> (r: Self)
        ensures
            !r.config.block_typing,
            !r.config.block_read_receipts,
            !r.config.hide_last_active,
            !r.config.block_link_previews,
    {
        PrivacyManager { config: PrivacyConfig::default() }
    }

    /// Replaces the whole configuration; the result is what the host applies.
    pub fn update(&mut self, config: PrivacyConfig) -> (r: PrivacyConfig)
        ensures
            final(self).config == config,
            r == config,
    {
        self.config = config;
        self.config
    }

    /// Sets the typing-indicator block; the result is what the host applies.
    pub fn set_block_typing(&mut self, value: bool) -> (r: PrivacyConfig)
        ensures
            final(self).config == (PrivacyConfig { block_typing: value, ..old(self).config }),
            r == final(self).config,
    {
        self.config.block_typing = value;
        self.config
    }

    /// Sets the read-receipt block; the result is what the host applies.
    pub fn set_block_read_receipts(&mut self, value: bool) -> (r: PrivacyConfig)
        ensures
            final(self).config == (PrivacyConfig {
                block_read_receipts: value,
                ..old(self).config
            }),
            r == final(self).config,
    {
        self.config.block_read_receipts = value;
        self.config
    }

    /// Sets the last-active hiding; the result is what the host applies.
    pub fn set_hide_last_active(&mut self, value: bool) -> (r: PrivacyConfig)
        ensures
            final(self).config == (PrivacyConfig { hide_last_active: value, ..old(self).config }),
            r == final(self).config,
    {
        self.config.hide_last_active = value;
        self.config
    }

    /// Sets the link-preview block; the result is what the host applies.
    pub fn set_block_link_previews(&mut self, value: bool) -> (r: PrivacyConfig)
        ensures
            final(self).config == (PrivacyConfig {
                block_link_previews: value,
                ..old(self).config
            }),
            r == final(self).config,
    {
        self.config.block_link_previews = value;
        self.config
    }

    /// The current configuration.
    pub fn config(&self) -> (r: PrivacyConfig)
        ensures
            r == self.config,
    {
        self.config
    }
}

} // verus!
