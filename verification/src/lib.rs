//! Core of a pull-based metrics exporter for NetApp storage systems: the
//! scrape orchestration, per-series counter reconciliation and
//! enumerated-state decoding, with the behaviour of every function stated
//! in its contract and checked by Verus. Transport, JSON and YAML
//! decoding and the exposition encoding live in an unverified shell that
//! exchanges plain values with this crate.

pub mod accum;
pub mod aggregates;
pub mod arith;
pub mod chassis;
pub mod cifs;
pub mod config;
pub mod constants;
pub mod counter;
pub mod decode;
pub mod ethernet;
pub mod exporter;
pub mod fibrechannel;
pub mod jobs;
pub mod nfs;
pub mod quotas;
pub mod register;
pub mod sample;
pub mod storage_metrics;
pub mod volumes;
