//! Conversation-state tags and callback-data prefixes exchanged with the
//! front-end's per-chat store.

use vstd::prelude::*;

verus! {

/// The prefix an inline keyboard writes ahead of its callback payload, so
/// the handler that owns the button recognizes it.
pub enum CallbackDataPrefix {
    MyStickers,
    Stats,
}

impl CallbackDataPrefix {
    pub fn as_str(&self) -> (r: &'static str)
        ensures
            r@ == match *self {
                CallbackDataPrefix::MyStickers => "MyStickers"@,
                CallbackDataPrefix::Stats => "Stats"@,
            },
    {
        match self {
            CallbackDataPrefix::MyStickers => "MyStickers",
            CallbackDataPrefix::Stats => "Stats",
        }
    }
}

/// The state of the owner-lookup conversation.
pub enum GetOwnerState {
    GetStickers,
}

impl GetOwnerState {
    pub fn as_str(&self) -> (r: &'static str)
        ensures
            r@ == "get_stickers"@,
    {
        "get_stickers"
    }
}

} // verus!
