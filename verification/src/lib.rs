pub mod chars;
pub mod commits;
pub mod copy;
pub mod diff;
pub mod help;
pub mod keys;
pub mod labels;
pub mod text;
pub mod theme;
pub mod cells;
pub mod model;
pub mod panes;
pub mod rebase;
pub mod routing;
pub mod repo_keys;
pub mod selection;
pub mod shell;
pub mod status;
pub mod layout;
pub mod lists;
pub mod menus;
pub mod app;
pub mod laws;
pub mod workspace;
pub mod content_laws;
pub mod binding_laws;
