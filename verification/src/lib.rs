//! Verified core of SkinVolt: the decisions and text handling of a Steam
//! market price tracker.
pub mod analytics;
pub mod cooldown;
pub mod market;
pub mod model;
pub mod retry;
pub mod settings;
pub mod steam;
pub mod text;
pub mod tiers;
