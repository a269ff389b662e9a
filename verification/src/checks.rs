//! The validators, one per format, and what they share.

pub mod bam;
pub mod common;
pub mod fastq;
pub mod raw;
