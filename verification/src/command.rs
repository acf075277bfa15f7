use vstd::prelude::*;

verus! {

/// Length of a collection window: a positive number of seconds.
#[derive(Clone, Copy, Debug, PartialEq, Eq)]
pub struct Window {
    seconds: u64,
}

impl View for Window {
    type V = u64;

    closed spec fn view(&self) -> u64 {
        self.seconds
    }
}

impl Window {
    #[verifier::type_invariant]
    spec fn positive(self) -> bool {
        self.seconds > 0
    }

    /// A window of `seconds` seconds. There is no window of zero seconds.
    pub fn new(seconds: u64) -> (window: Option<Window>)
        ensures
            match window {
                Some(made) => seconds > 0 && made@ == seconds,
                None => seconds == 0,
            },
    {
        if seconds == 0 {
            None
        } else {
            Some(Window { seconds })
        }
    }

    pub fn seconds(&self) -> (seconds: u64)
        ensures
            seconds == self@,
            seconds > 0,
    {
        proof {
            use_type_invariant(self);
        }
        self.seconds
    }
}

/// What a run of the program is asked to do.
#[derive(Clone, Copy, Debug, PartialEq, Eq)]
pub enum Command {
    /// Collect for one window, aggregate and store.
    Cache(Window),
    /// Print what was stored.
    Read,
    /// Collecting was asked for without a duration.
    MissingDuration,
    /// Collecting was asked for with a duration of zero.
    ZeroDuration,
    /// The mode is neither of the two.
    InvalidMode,
}

/// `Command` as plain values.
pub enum CommandView {
    Cache(u64),
    Read,
    MissingDuration,
    ZeroDuration,
    InvalidMode,
}

impl View for Command {
    type V = CommandView;

    open spec fn view(&self) -> CommandView {
        match *self {
            Command::Cache(window) => CommandView::Cache(window@),
            Command::Read => CommandView::Read,
            Command::MissingDuration => CommandView::MissingDuration,
            Command::ZeroDuration => CommandView::ZeroDuration,
            Command::InvalidMode => CommandView::InvalidMode,
        }
    }
}

/// The command that a mode and an optional duration stand for.
pub open spec fn command_of(mode: Seq<char>, times: Option<u64>) -> CommandView {
    if mode == "cache"@ {
        match times {
            Some(seconds) => if seconds == 0 {
                CommandView::ZeroDuration
            } else {
                CommandView::Cache(seconds)
            },
            None => CommandView::MissingDuration,
        }
    } else if mode == "read"@ {
        CommandView::Read
    } else {
        CommandView::InvalidMode
    }
}

/// Whether two texts are the same.
fn same_text(left: &str, right: &str) -> (same: bool)
    ensures
        same == (left@ == right@),
{
    let left: String = left.to_owned();
    let right: String = right.to_owned();
    left == right
}

/// Reads the mode and the duration given on the command line.
pub fn select_command(mode: &str, times: Option<u64>) -> (command: Command)
    ensures
        command@ == command_of(mode@, times),
{
    if same_text(mode, "cache") {
        match times {
            Some(seconds) => match Window::new(seconds) {
                Some(window) => Command::Cache(window),
                None => Command::ZeroDuration,
            },
            None => Command::MissingDuration,
        }
    } else if same_text(mode, "read") {
        Command::Read
    } else {
        Command::InvalidMode
    }
}

} // verus!
