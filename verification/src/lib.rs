//! Hardware health scoring.
//!
//! A point-in-time snapshot of a machine's processor, memory and disks is
//! mapped to three weighted sub-scores, an overall score, a four-way
//! condition category and an ordered list of recommendation messages.
//! All arithmetic is exact fixed-point: scores are carried in hundredths
//! of a point (`0..=1000` for `0.0..=10.0`) and percentages in tenths of
//! a percent, so every step of the pipeline is verified.

mod category;
mod engine;
mod laws;
mod recommend;
mod report;
mod score;
mod snapshot;
mod text;

pub use category::PerformanceCategory;
pub use category::spec_color_code;
pub use category::spec_description;
pub use engine::calculate_performance_score;
pub use engine::VERSION;
pub use engine::spec_is_score_of;
pub use engine::PerformanceScore;
pub use laws::lemma_category_partition;
pub use laws::lemma_disk_sum_bounds;
pub use laws::lemma_recommendations_shape;
pub use laws::lemma_score_deterministic;
pub use laws::lemma_scores_in_range;
pub use recommend::generate_recommendations;
pub use recommend::seq_views;
pub use recommend::spec_closing_message;
pub use recommend::spec_cpu_recs;
pub use recommend::spec_disk_recs;
pub use recommend::spec_disk_recs_one;
pub use recommend::spec_general_message;
pub use recommend::spec_ram_recs;
pub use recommend::spec_recommendations;
pub use report::bytes_to_gb;
pub use report::display_performance_score;
pub use report::generate_complete_report;
pub use report::generate_report;
pub use report::progress_bar;
pub use report::spec_bar_fill;
pub use report::spec_bytes_to_gb;
pub use report::spec_complete_report;
pub use report::spec_cpu_section;
pub use report::spec_disk_entries;
pub use report::spec_disk_entry;
pub use report::spec_disk_section;
pub use report::spec_display;
pub use report::spec_display_parts;
pub use report::spec_gb_centi;
pub use report::spec_progress_bar;
pub use report::spec_ram_section;
pub use report::spec_recommendation_lines;
pub use report::spec_report;
pub use report::spec_score_tenths_str;
pub use score::calculate_cpu_score;
pub use score::calculate_disk_score;
pub use score::calculate_ram_score;
pub use score::determine_category;
pub use score::disk_composite;
pub use score::overall_score;
pub use score::spec_category;
pub use score::spec_clamp;
pub use score::spec_cores_factor;
pub use score::spec_cpu_score;
pub use score::spec_cpu_usage_factor;
pub use score::spec_disk_composite;
pub use score::spec_disk_score;
pub use score::spec_disk_sum;
pub use score::spec_disk_type_factor;
pub use score::spec_disk_usage_factor;
pub use score::spec_free_space_factor;
pub use score::spec_freq_factor;
pub use score::spec_overall;
pub use score::spec_ram_capacity_factor;
pub use score::spec_ram_score;
pub use score::spec_ram_usage_factor;
pub use score::spec_swap_factor;
pub use score::MAX_SCORE_CENTI;
pub use score::NEUTRAL_DISK_SCORE_CENTI;
pub use snapshot::CpuInfo;
pub use snapshot::DiskInfo;
pub use snapshot::RamInfo;
pub use snapshot::GB;
pub use snapshot::GIB;
pub use snapshot::spec_usage_tenths;
pub use text::centi_string;
pub use text::repeat_str;
pub use text::spec_centi_str;
pub use text::spec_decimal;
pub use text::spec_digit;
pub use text::spec_repeat;
pub use text::spec_str_contains;
pub use text::spec_tenths_str;
pub use text::str_contains;
pub use text::tenths_string;
pub use text::u64_string;
pub use text::usize_string;
