//! The image tools feature. So far it offers one thing: the text that
//! welcomes the user to it.

use vstd::prelude::*;

verus! {

/// The text that introduces the image tools.
pub const WELCOME_MESSAGE: &'static str =
    "Welcome to the Prompt Peekery!\n\n\
    Drop in a picture, preferably one you've birthed from the loins of a diffusion engine. \
    We'll pry it open like a suspicious pie and sniff the juicy metadata inside.\n\n\
    What you'll uncover:\n\n\
    - The _sacred prompt_ that summoned it\n\
    - The _model_ that carved its bones\n\
    - The _seed_ that sprouted its weird little face\n\
    - Sampling steps, schedulers, styles, and other sorceries\n\n\
    Perfect for when you mutter _\"how the gob did I make this?\"_\n\n\
    \u{1F4F7} Chuck in an image to begin the poking.";

/// The state of the image tools.
pub struct ImageToolsState {
    /// The text shown when the image tools are selected.
    pub welcome_message: String,
}

impl ImageToolsState {
    /// The state the feature starts in: it holds the welcome text.
    pub fn new() -> (state: ImageToolsState)
        ensures
            state.welcome_message@ == WELCOME_MESSAGE@,
    {
        ImageToolsState { welcome_message: WELCOME_MESSAGE.to_owned() }
    }
}

impl Default for ImageToolsState {
    /// A state without any text.
    fn default() -> (state: ImageToolsState)
        ensures
            state.welcome_message@ == Seq::<char>::empty(),
    {
        ImageToolsState { welcome_message: String::new() }
    }
}

/// The image tools as the console drives them.
pub struct ImageToolsHandler {
    pub state: ImageToolsState,
}

impl ImageToolsHandler {
    /// A handler over the starting state.
    pub fn new() -> (handler: ImageToolsHandler)
        ensures
            handler.state.welcome_message@ == WELCOME_MESSAGE@,
    {
        ImageToolsHandler { state: ImageToolsState::new() }
    }

    /// The text that introduces the image tools.
    pub fn get_welcome_message(&self) -> (message: &str)
        ensures
            message@ == self.state.welcome_message@,
    {
        self.state.welcome_message.as_str()
    }
}

} // verus!
