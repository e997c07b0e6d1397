//! Core of a short-video series downloader: file naming, the catalogue's
//! response envelopes, the paged search menu, per-episode progress state and
//! the bounded download batch that reports outcomes in episode order.

mod batch;
mod menu;
mod model;
mod naming;
mod paths;
mod progress;

pub use batch::{
    apply_records, completion_label, distinct_records, failure_line, lemma_active_bounded,
    lemma_completion_order_irrelevant, lemma_failure_isolated, lemma_one_outcome_per_episode,
    lemma_records_order_free, outcome_line, running_of, summary_lines, Batch, DownloadOutcome,
    EpisodeResult,
};
pub use menu::{
    action_for, control_labels, is_blank, menu_options, next_page, page_after, prev_page,
    whitespace, SearchAction,
};
pub use model::{check_envelope, episode_titles, ApiError, SUCCESS_CODE};
pub use model::{DetailData, DetailModel, Info, ResultData, ResultModel, SearchData, SearchModel};
pub use naming::{episode_file_path, is_forbidden, lemma_sanitize_idempotent, sanitize_filename};
pub use naming::{forbidden, sanitized, sanitized_char};
pub use paths::{base_api, book_path, build_url, decimal, digit_char, digits, search_path};
pub use paths::video_path;
pub use progress::{lemma_bytes_done_is_sum, sum_of, ProgressUnit, UnitMode};
