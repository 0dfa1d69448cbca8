//! Message templates for Element (Matrix) clients.

pub mod no_style;
pub mod templates;

pub use templates::{
    GlassTemplate, Status, error, error_detail, help_menu, info, info_card, leaderboard, subcommand_list,
    success, success_detail, user_card, warning,
};
