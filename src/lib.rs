//! Decision logic of an interactive command-line session: turning raw lines
//! into command events, the input loop's state machine, the one-shot shutdown
//! switch, and the text that the shared output sink writes.
pub mod event;
pub mod tokenize;
pub mod input_loop;
pub mod output;
pub mod shutdown;
