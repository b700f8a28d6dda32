//! Watches a directory and files each new file into a fitting destination folder:
//! content classification, a category-to-directory rule table, a greedy semantic
//! subfolder descent, and a conflict-safe move planner.

pub mod utils;
pub mod detector;
pub mod mover;
pub mod matcher;
pub mod config;
pub mod categorizer;
pub mod preprocessor;
pub mod watcher;
pub mod organizer;
