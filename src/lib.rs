/// Epics, stories and the persisted document, with their mathematical views.
pub mod model;
/// Why a store operation fails, and how that is reported.
pub mod errors;
/// What each store operation does to the document, as relations between views.
pub mod effects;
/// Backends that keep the document, and the store that reads, changes and writes it.
pub mod db;
/// Screens, and the action that a typed line asks for on each.
pub mod pages;
/// The questions that some actions put to the user.
pub mod prompts;
/// The screen stack and the dispatch of actions.
pub mod navigators;
/// Properties that hold across operations.
pub mod laws;
