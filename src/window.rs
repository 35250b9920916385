//! The applet's state and how it reacts to each message.
use vstd::prelude::*;

verus! {

/// Application id under which the panel host knows the applet.
pub const APP_ID: &'static str = "io.ocf.paper-genmon-applet";

/// Program run to learn what the panel shows; it takes no arguments.
pub const STATUS_COMMAND: &'static str = "paper-genmon";

/// Seconds between two runs of the status command.
pub const REFRESH_SECS: u64 = 5;

/// Text shown until the status command has answered once.
pub const INITIAL_TEXT: &'static str = "Loading page count...";

/// What the applet is told.
#[derive(Clone, Debug)]
pub enum Message {
    /// Time to run the status command again.
    Tick,
    /// The status command answered; the text to show from now on.
    UpdateText(String),
}

/// What the applet asks its runtime to do after a message.
#[derive(Clone, Copy, Debug, PartialEq, Eq, Structural)]
pub enum Effect {
    /// Nothing.
    Idle,
    /// Run the status command, and send `Message::UpdateText` with the text
    /// made of its output.
    RunStatusCommand,
}

/// The applet's state: the text the panel shows.
pub struct Window {
    panel_text: String,
}

impl View for Window {
    type V = Seq<char>;

    /// The text the panel shows.
    closed spec fn view(&self) -> Seq<char> {
        self.panel_text@
    }
}

impl Window {
    /// The state at start-up, and the message to handle first: the panel
    /// shows `INITIAL_TEXT` and the status command is run at once.
    pub fn init() -> (r: (Window, Message))
        ensures
            r.0@ == INITIAL_TEXT@,
            r.1 is Tick,
    {
        (Window { panel_text: INITIAL_TEXT.to_owned() }, Message::Tick)
    }

    /// Handles one message. A tick leaves the text as it is and asks for a
    /// run of the status command; new text replaces the old and asks for
    /// nothing.
    pub fn update(&mut self, message: Message) -> (r: Effect)
        ensures
            match message {
                Message::Tick => r == Effect::RunStatusCommand && final(self)@ == old(self)@,
                Message::UpdateText(t) => r == Effect::Idle && final(self)@ == t@,
            },
    {
        match message {
            Message::Tick => Effect::RunStatusCommand,
            Message::UpdateText(new_text) => {
                self.panel_text = new_text;
                Effect::Idle
            },
        }
    }

    /// The text the panel shows.
    pub fn panel_text(&self) -> (r: &str)
        ensures
            r@ == self@,
    {
        self.panel_text.as_str()
    }
}

} // verus!
