//! Image generation services: the storage catalog and migrations, catalog
//! and generation-projection repositories, the catalog service, the
//! generation wire model and its Drive-import rules, vendor request
//! construction, provider error mapping, and the app API's request rules.

pub mod api;
pub mod catalog;
pub mod catalog_service;
pub mod generation;
pub mod generation_service;
pub mod lifecycle;
pub mod projection;
pub mod provider;
pub mod requests;
pub mod runtime;
pub mod scope;
pub mod storage;
pub mod subject;
pub mod text;
