//! A small password tutor: builds a character pool from selected character
//! classes, draws a random password of a requested length, and drills the
//! user on it through practice viewings and blind recall tests.

pub mod generate;
pub mod options;
pub mod pool;
pub mod trainer;

pub use options::generate_pass_spec;
pub use options::parse_u32;
pub use options::PassSpec;
pub use generate::generate_pass;
pub use pool::generate_char_pool;
pub use trainer::compare_label;
pub use trainer::drill_prompt;
pub use trainer::generation_prompt;
pub use trainer::learn_pass_loop;
pub use trainer::pass_compare;
pub use trainer::CompareOutcome;
pub use trainer::DrillPhase;
pub use trainer::DrillStep;
