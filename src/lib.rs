//! A remote control for a music-streaming account, driven through an
//! external picker menu. The library holds the decisions: the screens and
//! what a selection on them leads to, the navigation stack, the
//! authentication flow with its one-shot callback, the device choice and the
//! one-shot transport actions. The calls to the service, the picker process
//! and the desktop notifications are made by the caller.
pub mod text;
pub mod selection;
pub mod notify;
pub mod config;
pub mod items;
pub mod menu;
pub mod mode;
pub mod search;
pub mod playback;
pub mod device;
pub mod navigator;
pub mod redirect;
pub mod auth;
pub mod listener;
pub mod controller;
pub mod visual;
