//! Orchestration of a one-unit token mint.
//!
//! The library drives a fixed pipeline of four ledger operations — allocate a
//! mint account, initialize it as a zero-decimal mint, create the holding
//! account derived from the authority and the mint, and mint exactly one unit
//! into it — and proves that the pipeline is all-or-nothing: a failure at any
//! step leaves every account exactly as it was.
//!
//! Two views of the pipeline live here side by side:
//! - [`ledger`], [`steps`] and [`orchestrator`] model the ledger state that the
//!   four delegated operations read and write, and verify the sequencing,
//!   error taxonomy and post-state of a run;
//! - [`instructions`] and [`plan`] build, through the collaborating programs'
//!   own instruction builders, the concrete instruction for each step and say
//!   which of the seven bound accounts each delegated call receives.
//!
//! The delegated programs themselves (the system allocator, the token program
//! and the associated-account program) are outside collaborators: the library
//! states what they do and proves the orchestration against those statements.

pub mod addr;
pub mod derivation;
pub mod error;
pub mod instructions;
pub mod ledger;
pub mod orchestrator;
pub mod plan;
pub mod steps;
