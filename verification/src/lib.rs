//! Conventional-commit analysis: classify commit messages, derive the
//! semantic-version bump they imply, and aggregate them into a changelog.
//!
//! The pipeline: an ancestry walk ([`repo`]) hands out commits between the
//! repository's head and an exclusive boundary revision; each message is
//! classified into a [`bumping::BumpType`]; the classifications reduce to the
//! single maximal bump, which [`version`] applies to a semantic version; in
//! parallel, [`changelog`] buckets the same commits into changelog entries,
//! which [`render`] turns into text and merges with an existing file's content.

pub mod bumping;
pub mod changelog;
pub mod errors;
pub mod render;
pub mod repo;
pub mod text;
pub mod version;
