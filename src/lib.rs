//! Web apps as desktop applications: the registry and permission model, URL
//! normalization, the icon pipeline's decisions, launcher descriptions, and the
//! lifecycle and navigation rules, each with a verified contract.

use vstd::prelude::*;

pub mod engine;
pub mod text;
pub mod ordering;
pub mod ids;
pub mod weburl;
pub mod model;
pub mod permissions;
pub mod paths;
pub mod portal;
pub mod icons;
pub mod fallback;
pub mod raster;
pub mod lifecycle;
pub mod cleanup;
pub mod catalog;

verus! {

/// The application identifier registered with the desktop.
pub const APP_ID: &'static str = "xyz.andriishafar.Sitewrap";

} // verus!
