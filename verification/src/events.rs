//! Messages shared by the engine, the app state and the main loop.
use std::time::Duration;
use vstd::prelude::*;

use crate::clock::duration_nanos;
use crate::config::{Config, ConfigView};
use crate::settings::{clone_outcome, outcome_view, TestOutcome};

verus! {

/// Which step of one asset a worker is in.
#[derive(Debug, Clone, Copy, PartialEq, Eq, Structural)]
pub enum Stage {
    Fetching,
    CallingLlm,
    Writing,
}

impl Stage {
    /// Short lowercase name for the screen.
    pub open spec fn name(self) -> Seq<char> {
        match self {
            Stage::Fetching => "fetching"@,
            Stage::CallingLlm => "calling llm"@,
            Stage::Writing => "writing"@,
        }
    }

    /// Short lowercase label for the UI.
    pub fn label(self) -> (r: &'static str)
        ensures
            r@ == self.name(),
    {
        match self {
            Stage::Fetching => "fetching",
            Stage::CallingLlm => "calling llm",
            Stage::Writing => "writing",
        }
    }
}

/// Something the engine reports. The UI needs nothing else to draw.
#[derive(Debug, PartialEq)]
pub enum Event {
    /// Cumulative totals after one search page.
    PageLoaded { scanned: u64, queued: u64 },
    DiscoveryDone { total_queued: u64 },
    AssetStarted { id: String, name: String },
    AssetStage { id: String, stage: Stage },
    AssetDone { id: String, name: String, description: String, took: Duration, llm_took: Duration },
    AssetFailed { id: String, name: String, error: String },
    RunFinished { done: u64, failed: u64, elapsed: Duration },
    /// The run stopped. Only a config change or restart helps.
    Fatal { error: String },
    /// Result of a settings-screen connection test. `Ok` holds a short status text. The `id`
    /// is that of the request.
    ConnectionTest { id: u64, immich: Result<String, String>, llm: Result<String, String> },
}

/// Mathematical model of [`Event`]: texts as characters, durations in nanoseconds.
pub enum EventView {
    PageLoaded { scanned: u64, queued: u64 },
    DiscoveryDone { total_queued: u64 },
    AssetStarted { id: Seq<char>, name: Seq<char> },
    AssetStage { id: Seq<char>, stage: Stage },
    AssetDone {
        id: Seq<char>,
        name: Seq<char>,
        description: Seq<char>,
        took: nat,
        llm_took: nat,
    },
    AssetFailed { id: Seq<char>, name: Seq<char>, error: Seq<char> },
    RunFinished { done: u64, failed: u64, elapsed: nat },
    Fatal { error: Seq<char> },
    ConnectionTest { id: u64, immich: TestOutcome, llm: TestOutcome },
}

impl View for Event {
    type V = EventView;

    open spec fn view(&self) -> EventView {
        match *self {
            Event::PageLoaded { scanned, queued } => EventView::PageLoaded { scanned, queued },
            Event::DiscoveryDone { total_queued } => EventView::DiscoveryDone { total_queued },
            Event::AssetStarted { id, name } => EventView::AssetStarted { id: id@, name: name@ },
            Event::AssetStage { id, stage } => EventView::AssetStage { id: id@, stage },
            Event::AssetDone { id, name, description, took, llm_took } => EventView::AssetDone {
                id: id@,
                name: name@,
                description: description@,
                took: duration_nanos(took),
                llm_took: duration_nanos(llm_took),
            },
            Event::AssetFailed { id, name, error } => EventView::AssetFailed {
                id: id@,
                name: name@,
                error: error@,
            },
            Event::RunFinished { done, failed, elapsed } => EventView::RunFinished {
                done,
                failed,
                elapsed: duration_nanos(elapsed),
            },
            Event::Fatal { error } => EventView::Fatal { error: error@ },
            Event::ConnectionTest { id, immich, llm } => EventView::ConnectionTest {
                id,
                immich: outcome_view(immich),
                llm: outcome_view(llm),
            },
        }
    }
}

impl Clone for Event {
    fn clone(&self) -> (r: Self)
        ensures
            r == *self,
    {
        match self {
            Event::PageLoaded { scanned, queued } => Event::PageLoaded {
                scanned: *scanned,
                queued: *queued,
            },
            Event::DiscoveryDone { total_queued } => Event::DiscoveryDone {
                total_queued: *total_queued,
            },
            Event::AssetStarted { id, name } => Event::AssetStarted {
                id: id.clone(),
                name: name.clone(),
            },
            Event::AssetStage { id, stage } => Event::AssetStage { id: id.clone(), stage: *stage },
            Event::AssetDone { id, name, description, took, llm_took } => Event::AssetDone {
                id: id.clone(),
                name: name.clone(),
                description: description.clone(),
                took: *took,
                llm_took: *llm_took,
            },
            Event::AssetFailed { id, name, error } => Event::AssetFailed {
                id: id.clone(),
                name: name.clone(),
                error: error.clone(),
            },
            Event::RunFinished { done, failed, elapsed } => Event::RunFinished {
                done: *done,
                failed: *failed,
                elapsed: *elapsed,
            },
            Event::Fatal { error } => Event::Fatal { error: error.clone() },
            Event::ConnectionTest { id, immich, llm } => Event::ConnectionTest {
                id: *id,
                immich: clone_outcome(immich),
                llm: clone_outcome(llm),
            },
        }
    }
}

/// Something the UI asks the engine to do.
#[derive(Debug, Clone, Copy, PartialEq, Eq, Structural)]
pub enum Command {
    Start,
    Pause,
    Resume,
    Quit,
}

/// A key press, already mapped from the terminal library so that the app state stays I/O free.
#[derive(Debug, Clone, Copy, PartialEq, Eq, Structural)]
pub enum Key {
    Char(char),
    Up,
    Down,
    Enter,
    Esc,
    Tab,
    BackTab,
    Backspace,
    CtrlC,
    CtrlS,
    CtrlT,
    CtrlR,
}

/// Side effect requested by a key. The main loop performs it.
#[derive(Debug, Clone, PartialEq)]
pub enum Action {
    Send(Command),
    /// Test the connections described by this candidate config.
    TestConnections { id: u64, config: Config },
    SaveConfig(Config),
    Quit,
}

/// Mathematical model of [`Action`].
pub enum ActionView {
    Send(Command),
    TestConnections { id: u64, config: ConfigView },
    SaveConfig(ConfigView),
    Quit,
}

impl View for Action {
    type V = ActionView;

    open spec fn view(&self) -> ActionView {
        match *self {
            Action::Send(command) => ActionView::Send(command),
            Action::TestConnections { id, config } => ActionView::TestConnections {
                id,
                config: config@,
            },
            Action::SaveConfig(config) => ActionView::SaveConfig(config@),
            Action::Quit => ActionView::Quit,
        }
    }
}

/// The model of an optional action.
pub open spec fn opt_action(a: Option<Action>) -> Option<ActionView> {
    match a {
        Some(action) => Some(action@),
        None => None,
    }
}

/// A key as the terminal reports it.
#[derive(Debug, Clone, Copy, PartialEq, Eq, Structural)]
pub enum TermKey {
    Char(char),
    Up,
    Down,
    Enter,
    Esc,
    Tab,
    BackTab,
    Backspace,
    /// Any other key: function keys, arrows to the side, paging.
    Other,
}

/// The app key for a terminal key, with or without the control modifier. Characters with
/// control are shortcuts or nothing; the other keys ignore the modifier.
pub open spec fn mapped_key(code: TermKey, ctrl: bool) -> Option<Key> {
    match code {
        TermKey::Char(c) => if !ctrl {
            Some(Key::Char(c))
        } else if c == 'c' {
            Some(Key::CtrlC)
        } else if c == 's' {
            Some(Key::CtrlS)
        } else if c == 't' {
            Some(Key::CtrlT)
        } else if c == 'r' {
            Some(Key::CtrlR)
        } else {
            None
        },
        TermKey::Up => Some(Key::Up),
        TermKey::Down => Some(Key::Down),
        TermKey::Enter => Some(Key::Enter),
        TermKey::Esc => Some(Key::Esc),
        TermKey::Tab => Some(Key::Tab),
        TermKey::BackTab => Some(Key::BackTab),
        TermKey::Backspace => Some(Key::Backspace),
        TermKey::Other => None,
    }
}

/// Maps a terminal key to an app key.
pub fn map_key(code: TermKey, ctrl: bool) -> (r: Option<Key>)
    ensures
        r == mapped_key(code, ctrl),
{
    match (code, ctrl) {
        (TermKey::Char('c'), true) => Some(Key::CtrlC),
        (TermKey::Char('s'), true) => Some(Key::CtrlS),
        (TermKey::Char('t'), true) => Some(Key::CtrlT),
        (TermKey::Char('r'), true) => Some(Key::CtrlR),
        (TermKey::Char(c), false) => Some(Key::Char(c)),
        (TermKey::Up, _) => Some(Key::Up),
        (TermKey::Down, _) => Some(Key::Down),
        (TermKey::Enter, _) => Some(Key::Enter),
        (TermKey::Esc, _) => Some(Key::Esc),
        (TermKey::Tab, _) => Some(Key::Tab),
        (TermKey::BackTab, _) => Some(Key::BackTab),
        (TermKey::Backspace, _) => Some(Key::Backspace),
        _ => None,
    }
}

} // verus!
