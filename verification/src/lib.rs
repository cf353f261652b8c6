//! Terminal catalog browser core: a selectable list cursor, centering and
//! text-padding geometry, an image sizing policy for character-cell
//! terminals, and the message-driven application state machine that folds
//! user input and background fetch completions into one deterministic
//! update loop.
pub mod app;
pub mod input;
pub mod layout;
pub mod pipeline;
pub mod sizing;
pub mod stateful_list;
