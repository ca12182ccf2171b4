//! Static analysis of uploaded files: hashes, file-type detection, binary,
//! archive, PDF and shortcut inspection, indicator extraction, pattern rules,
//! signature lookups and the aggregated verdict.

pub mod text;
pub mod types;
pub mod score;
pub mod yara;
pub mod pdf;
pub mod mime;
pub mod lnk;
pub mod sorted;
pub mod strings;
pub mod archive;
pub mod binary;
pub mod hash;
pub mod clamav;
pub mod pipeline;
pub mod vt;
pub mod entropy;
pub mod upload;
