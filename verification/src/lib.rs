//! Generates markdown status-badge lines for GitHub Actions workflow files,
//! with the GitHub username resolved from a configuration value, a
//! command-line flag, or an environment variable, in that priority order.

pub mod badge;
pub mod errors;
pub mod repo;
pub mod resolver;
pub mod text;
