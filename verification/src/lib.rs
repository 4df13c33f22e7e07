//! Release tracking and artifact updates for the add-on components of a
//! desktop input method: an input scheme, a dictionary bundle, a language
//! model, and the updater program itself.
//!
//! The library decides; it does no input or output. A run asks what is to be
//! done next, the caller does it (queries the release-hosting API, transfers,
//! hashes, unpacks), and hands back what came of it:
//!
//! - [`version_choose`] compares tags by the versions that they stand for;
//! - [`asset_match`] picks the asset of a release by rule;
//! - [`github_client`] tells the query for each component, reads what the API
//!   answered, with [`release_json`] and [`json`], and describes the candidate
//!   that a release offers;
//! - [`update_cache`] holds the records of what is installed and judges
//!   whether a candidate is an update, [`record_file`] writes and reads them;
//! - [`file_operations`] and [`file_checker`] carry a fetch through its checks
//!   before and after the transfer;
//! - [`pipeline`] and [`update_checker`] run the components through check,
//!   fetch, install and commit, and tell whether the host application has to
//!   reload, which [`weasel_manager`] then leads through;
//! - [`config_read`], [`path_get`] and [`url_utils`] read the configuration,
//!   the paths and the addresses that all of this starts from.

use vstd::prelude::*;

pub mod asset_match;
pub mod config_read;
pub mod file_checker;
pub mod file_operations;
pub mod github_client;
pub mod json;
pub mod path_get;
pub mod pipeline;
pub mod record_file;
pub mod release_json;
pub mod text;
pub mod types;
pub mod update_cache;
pub mod update_checker;
pub mod url_utils;
pub mod version_choose;
pub mod weasel_manager;
