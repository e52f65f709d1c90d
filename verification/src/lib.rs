//! Verified logic of the chat client's list screens: a virtualized list
//! coordinator (viewport windowing, view recycling, auto-scroll arbitration)
//! and the decisions that the chat transcript, the model list, the chat history
//! card and the downloaded-files table take on top of it.

pub mod chat_history_card;
pub mod chat_panel;
pub mod coordinator;
pub mod downloaded_files_table;
pub mod list_model;
pub mod model_list;
pub mod pool;
pub mod text;
pub mod viewport;
