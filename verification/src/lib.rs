//! A terminal word-guessing game engine.
//!
//! The engine holds the solution word, the dictionary of valid guesses, the
//! guess history and the in-progress input buffer, and scores each committed
//! guess letter by letter against the solution. A session controller drives
//! the turn loop over the engine until the game is won, lost or aborted.
//! Presentation (terminal rendering, argument parsing, randomness, file I/O)
//! lives outside this library and only reads engine state or feeds it events.

pub mod engine;
pub mod session;

pub use engine::GameError;
pub use engine::GameState;
pub use engine::HitInfo;
pub use session::InputEvent;
pub use session::Session;
pub use session::SessionStatus;
