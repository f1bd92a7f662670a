//! An assertion engine: comparison predicates that return a structured
//! outcome instead of panicking, and combinators that merge two outcomes
//! under AND/OR semantics with readable, indented diagnostics.

mod combinators;
mod failure;
mod laws;
mod message;
mod relations;

pub use combinators::and;
pub use combinators::or;
pub use failure::Outcome;
pub use failure::TestFailure;
pub use laws::lemma_equal_not_equal_complementary;
pub use laws::lemma_failure_shows_operands;
pub use laws::lemma_le_ge_mirror;
pub use laws::lemma_merged_shows_inner;
pub use message::contains_text;
pub use message::detail_line;
pub use message::failure_header;
pub use message::failure_message;
pub use message::indent_message;
pub use message::indented;
pub use message::lemma_indented_growth;
pub use message::merged_both;
pub use message::merged_one;
pub use message::newline_count;
pub use message::opt_text;
pub use message::rendered_one;
pub use message::rendered_plain;
pub use message::rendered_two;
pub use message::with_annotation;
pub use message::OperandView;
pub use message::Relation;
pub use relations::any;
pub use relations::any_passes;
pub use relations::equal;
pub use relations::equal_passes;
pub use relations::greater_or_equal;
pub use relations::greater_or_equal_passes;
pub use relations::less_or_equal;
pub use relations::less_or_equal_passes;
pub use relations::not_any;
pub use relations::not_equal;
pub use relations::not_equal_passes;
pub use relations::Operand;
