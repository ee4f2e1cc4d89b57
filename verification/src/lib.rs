//! Verified core of the roster feature of Pod, an EVE Online companion: scope derivation for
//! sign-in flows, deep-link payload handling, the captain's log prompt and completeness rules,
//! the debrief wizard, and the small sorting, filtering and labelling rules of the roster views.

pub mod text;
pub mod scopes;
pub mod features;
pub mod auth;
pub mod log_model;
pub mod prompts;
pub mod deep_link;
pub mod desktop;
pub mod answer_map;
pub mod wizard;
pub mod contacts;
pub mod standings;
pub mod entity_search;
pub mod character_tabs;
pub mod corporation_tabs;
pub mod roster_tabs;
pub mod km_report;
pub mod calendar;
pub mod nudge;
pub mod objective_link;
pub mod cards;
pub mod dossier;
pub mod contact_sync;
pub mod sync_table;
pub mod narrative;
pub mod past;
pub mod log_book;
