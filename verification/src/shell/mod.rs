//! Logic of the desktop shell: configuration defaults, panel, theme,
//! chat bar, welcome screen and settings.
pub mod chat;
pub mod config;
pub mod onboarding;
pub mod panel;
pub mod settings;
pub mod theme;
