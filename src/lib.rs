//! Filtered directory-tree listing with optional single-match search.
//!
//! `filter` decides whether one entry is skipped (extension allow- and
//! deny-lists, ignored directory names); `traverse` turns a directory tree,
//! as it was read, into the lines to show, depth-first and pruning
//! directories that would show nothing; `grep` finds and formats the first
//! line of a file that a regular expression matches. Children are listed in
//! the order in which the tree holds them: a caller that reads them sorted by
//! name gets output that does not depend on the platform's directory order.

pub mod filter;
pub mod grep;
pub mod traverse;
