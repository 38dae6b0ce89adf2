//! Verified core of the Compass stock-chart workbench: the screener
//! condition-card model and its mapping to the filter AST, the panel state
//! machines (modal, toast queue, tabs, stock picker) and the configuration
//! and text rules the GUI applies.

pub mod text;
pub mod filter;
pub mod screener_builder;
pub mod screener;
pub mod i18n_name;
pub mod llm_screener;
pub mod tabs;
pub mod modal;
pub mod toast;
pub mod searchable_dropdown;
pub mod config;
pub mod watchlist;
pub mod market;
pub mod sepa;
pub mod log_export;
pub mod feedback;
pub mod index_snapshot;
pub mod chart;
pub mod shortcuts;
pub mod messages;
pub mod session;
pub mod fetch;
pub mod toolbar;
pub mod card_params;
