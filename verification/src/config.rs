//! Process-wide configuration and the decision when to reload it.

use vstd::prelude::*;
use vstd::string::*;

verus! {

/// The port that is served when the operator names none.
pub const DEFAULT_SERVER_PORT: u16 = 3030;

/// What the operator configures.
#[derive(Debug)]
pub struct Config {
    /// The port to listen on.
    pub server_port: u16,
    /// Whether the console window stays visible.
    pub show_console: bool,
    /// The address to listen on.
    pub address: String,
    /// The directory of the operator's own theme; empty for none.
    pub theme_path: String,
}

/// Mathematical model of a [`Config`].
pub struct ConfigView {
    pub server_port: u16,
    pub show_console: bool,
    pub address: Seq<char>,
    pub theme_path: Seq<char>,
}

impl ConfigView {
    /// Port 3030 on the loopback address, console hidden, bundled theme.
    pub open spec fn standard() -> ConfigView {
        ConfigView {
            server_port: DEFAULT_SERVER_PORT,
            show_console: false,
            address: "127.0.0.1"@,
            theme_path: Seq::empty(),
        }
    }
}

impl View for Config {
    type V = ConfigView;

    open spec fn view(&self) -> ConfigView {
        ConfigView {
            server_port: self.server_port,
            show_console: self.show_console,
            address: self.address@,
            theme_path: self.theme_path@,
        }
    }
}

impl Default for Config {
    fn default() -> (config: Self)
        ensures
            config@ == ConfigView::standard(),
    {
        Config {
            server_port: DEFAULT_SERVER_PORT,
            show_console: false,
            address: String::from_str("127.0.0.1"),
            theme_path: String::new(),
        }
    }
}

impl Clone for Config {
    fn clone(&self) -> (res: Self)
        ensures
            res@ == self@,
    {
        Config {
            server_port: self.server_port,
            show_console: self.show_console,
            address: self.address.clone(),
            theme_path: self.theme_path.clone(),
        }
    }
}

/// When a file was last modified, since the epoch.
#[derive(Clone, Copy, Debug, PartialEq, Eq, Structural)]
pub struct FileStamp {
    pub seconds: u64,
    pub nanos: u32,
}

/// Remembers the modification time for which the configuration was last
/// loaded, so that several notices about one change reload it once.
#[derive(Debug)]
pub struct ConfigWatch {
    last_modified: Option<FileStamp>,
}

impl View for ConfigWatch {
    type V = Option<FileStamp>;

    closed spec fn view(&self) -> Option<FileStamp> {
        self.last_modified
    }
}

impl ConfigWatch {
    /// Starts watching a file whose modification time is `modified` (`None`
    /// where it cannot be read).
    pub fn new(modified: Option<FileStamp>) -> (watch: Self)
        ensures
            watch@ == modified,
    {
        ConfigWatch { last_modified: modified }
    }

    /// The modification time that was seen last.
    pub fn last_modified(&self) -> (modified: Option<FileStamp>)
        ensures
            modified == self@,
    {
        self.last_modified
    }

    /// Takes notice of a change in the watched directory. `touches_config`
    /// says whether the notice names the configuration file, `modified` is
    /// the file's modification time now. The configuration is to be reloaded
    /// if the notice names the file and the time differs from the one seen
    /// last; the watch then remembers the new time.
    pub fn should_reload(&mut self, touches_config: bool, modified: Option<FileStamp>) -> (reload:
        bool)
        ensures
            reload == (touches_config && modified != old(self)@),
            final(self)@ == if reload {
                modified
            } else {
                old(self)@
            },
    {
        if !touches_config {
            return false;
        }
        let changed = match (modified, self.last_modified) {
            (Some(now), Some(before)) => now != before,
            (None, None) => false,
            _ => true,
        };
        if changed {
            self.last_modified = modified;
        }
        changed
    }
}

} // verus!
