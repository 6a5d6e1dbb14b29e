//! A chat bot's message handling: a router that hands each message to the first handler that
//! wants it, an echo handler, a reminder handler backed by an append-only journal, and the
//! bot's configuration.
pub mod command;
pub mod config;
pub mod due;
pub mod echo;
pub mod handler;
pub mod reminder;
pub mod reminder_handler;
pub mod rooms;
pub mod store;
pub mod text;

pub use echo::EchoHandler;
pub use handler::{Action, Handler, Message, Router};
pub use command::{parse_command, ReminderCommand};
pub use config::{Config, HandlerConfig, ReminderHandlerConfig, TransportConfig, XmppConfig};
pub use due::Due;
pub use reminder::{Reminder, ReminderRecord};
pub use reminder_handler::{ReminderHandler, ReminderStep};
pub use store::ReminderStore;
