//! Switching the active context and namespace of a kubeconfig document.
//!
//! The crate holds the decisions of the two commands as verified functions on
//! an in-memory [`kubeconfig::Kubeconfig`]: which value is current, whether the
//! operator has to be asked, which entry a change touches and what the
//! document looks like afterwards. Reading and writing the file, querying the
//! cluster and showing the picker are left to the caller, who is told through
//! [`commands::Step`] what to do next.

pub mod kubeconfig;
pub mod commands;
