//! Rule-driven CPU scheduling policy for running processes.
//!
//! The crate holds an ordered set of pattern-to-policy rules, decides which
//! rules apply to an observed process, and models the enforcement of priority
//! classes and core-affinity masks, together with the monitor loop's state
//! machine and the rule editor's selection logic.

pub mod editor;
pub mod enforce;
pub mod monitor;
pub mod pattern;
pub mod rules;

pub use rules::ProcessInfo;
pub use rules::ProcessPriority;
pub use rules::ProcessRule;
pub use rules::ProcessRuleSet;
