//! The pipeline's phases.

pub mod phase7;
pub mod phase8;
pub mod phase9;
pub mod prawa_arkusza;
pub mod prawa_dziennikow;
pub mod prawa_ocen;
pub mod prawa_progow;
pub mod prawa_werdyktow;
pub mod prawa_wywolan;
pub mod repair_modules;
