//! Audits the license terms of a package and its dependencies.
//!
//! The crate models a license declaration as a tagged [`license::License`]
//! value with total parsing from free-form text and canonical formatting back
//! to text, decides pairwise inclusion compatibility with a three-valued
//! answer, maps concrete licenses to their embedded full text, groups
//! packages by their license, and renders the listing and bundle reports as
//! plain strings. All of it is pure: reading package graphs and writing
//! reports are left to callers.

pub mod compat;
pub mod display;
pub mod group;
pub mod license;
pub mod parse;
pub mod render;
pub mod strutil;
pub mod text;
