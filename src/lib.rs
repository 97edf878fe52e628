pub mod classify;
pub mod config;
pub mod driver;
pub mod mirror;
pub mod progress;
pub mod text;
pub mod tree;

pub use classify::{classify, is_series_name, Category};
pub use config::{run_log_line, Config, RunEvent};
pub use driver::{lemma_truncated_between_transfers, Action, EntryDriver, LeafJob, Phase};
pub use mirror::{lemma_mirror_idempotent, mirror_plan};
pub use progress::{progress_view, ProgressView, HEAD_LINES, TAIL_LINES};
pub use text::{join_path, lemma_prefix_stripped, local_path_of, same_text, starts_with, strip_prefix};
pub use tree::{FileNode, NodeKind, ParseError, RawNode};
