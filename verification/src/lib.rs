//! A text progress-bar engine: shared, concurrently updatable indicator
//! state, throttled redraw scheduling, a pluggable terminal capability, and
//! coordinated repainting of several bars in one shared terminal region.

pub mod draw_target;
pub mod in_memory_term;
pub mod iter;
pub mod multi;
pub mod progress_bar;
pub mod render;
pub mod state;
pub mod style;
pub mod term_like;

pub use draw_target::ProgressDrawTarget;
pub use in_memory_term::InMemoryTerm;
pub use iter::ProgressBarIter;
pub use multi::MultiProgress;
pub use progress_bar::ProgressBar;
pub use progress_bar::TickDriverStep;
pub use progress_bar::WeakProgressBar;
pub use state::Estimator;
pub use state::ProgressState;
pub use state::Status;
pub use style::ProgressFinish;
pub use style::ProgressStyle;
pub use term_like::TermLike;
pub use term_like::Terminal;
