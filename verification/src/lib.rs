//! Verified core of a binding layer for the Apple media frameworks.
//!
//! Every subsystem is described by a small, explicit model: four-character
//! codes, status-code results, the hardware object plane with its property
//! tables and listeners, texture and heap descriptors, path building, and
//! string/array value types.  The contracts state exactly what each
//! operation returns and how it changes the model, and Verus checks the
//! implementations against them.  The thin native edge (message sends and
//! C calls) lives outside this library and exchanges plain values with it.

pub mod am;
pub mod au;
pub mod av;
pub mod cat;
pub mod cf;
pub mod cg;
pub mod cm;
pub mod core_audio;
pub mod four_cc;
pub mod dispatch;
pub mod mlc;
pub mod mps;
pub mod mtl;
pub mod ns;
pub mod os;
pub mod sn;
