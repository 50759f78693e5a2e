pub mod models;
pub mod text;
pub mod updates;
pub mod chat;
pub mod engine;
pub mod giveaway;
pub mod table;
pub mod ids;
pub mod db;
pub mod json;
pub mod se;
pub mod se_import;
pub mod clock;
pub mod activity;
pub mod backup;
pub mod media;
pub mod runtime;
pub mod overlay;
pub mod control;
pub mod streamdeck;
pub mod auth;
pub mod eventsub;
pub mod web;
