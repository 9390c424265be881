//! Verified core of the University of Tokyo Vocaloid Producer Club site
//! builder: link rewriting, page references, HTML fragments, metadata and
//! the site map.

pub mod authors;
pub mod cards;
pub mod date;
pub mod details;
pub mod encoding;
pub mod fixup;
pub mod html;
pub mod layout;
pub mod links;
pub mod listing;
pub mod meta;
pub mod pages;
pub mod ranking;
pub mod reference;
pub mod sections;
pub mod sitemap;
pub mod social;
pub mod tables;
pub mod text;
pub mod track;
