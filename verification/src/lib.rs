//! The job and release engine of a slicing server.
//!
//! A slicing server takes 3D models, runs them through one of several
//! slicing engines, and reports progress until the toolpath is written
//! or the engine has failed. Engines are binaries of other projects:
//! they are fetched from tagged GitHub releases, or stand at a fixed
//! path, and run as subprocesses.
//!
//! This library holds the rules of that server and proves them: which
//! URL names which release and where that release is installed
//! ([`release`]), the steps that fetch and install a binary
//! ([`release::github_release::Download`]), the catalog of engines and
//! their command lines ([`engine`]), and the lifecycle of jobs in the
//! registry ([`job`]). It performs no input or output of its own. What
//! needs the network, the file system or a subprocess is described as
//! an action for the caller to perform, and what came of it is handed
//! back as a plain value.
pub mod auth;
pub mod config;
pub mod engine;
pub mod error;
pub mod execution_context;
pub mod job;
pub mod mutation_root;
pub mod query_root;
pub mod release;
pub mod server;
pub mod text;
