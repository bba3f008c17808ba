//! The tray menu: what each entry asks the program to do.

use vstd::prelude::*;
use vstd::string::*;
use crate::text::{decimal, push_decimal};

verus! {

/// The entries of the tray menu.
#[derive(Clone, Copy, Debug, PartialEq, Eq, Structural)]
pub enum MenuItem {
    OpenWebPage,
    OpenConfigFile,
    Restart,
    Exit,
}

/// What the program does for a chosen entry.
#[derive(Debug)]
pub enum TrayAction {
    /// Open this address in the browser.
    OpenUrl(String),
    /// Open the configuration file in its editor.
    OpenConfigFile,
    /// Start a new instance and leave.
    Restart,
    /// Leave.
    Exit,
}

/// Mathematical model of a [`TrayAction`].
pub enum TrayActionView {
    OpenUrl(Seq<char>),
    OpenConfigFile,
    Restart,
    Exit,
}

impl View for TrayAction {
    type V = TrayActionView;

    open spec fn view(&self) -> TrayActionView {
        match self {
            TrayAction::OpenUrl(url) => TrayActionView::OpenUrl(url@),
            TrayAction::OpenConfigFile => TrayActionView::OpenConfigFile,
            TrayAction::Restart => TrayActionView::Restart,
            TrayAction::Exit => TrayActionView::Exit,
        }
    }
}

/// The address of the served page on this machine.
pub open spec fn web_url_of(port: u16) -> Seq<char> {
    "http://localhost:"@ + decimal(port as nat)
}

/// The action behind a menu entry, for a page served on `port`.
pub open spec fn action_of(item: MenuItem, port: u16) -> TrayActionView {
    match item {
        MenuItem::OpenWebPage => TrayActionView::OpenUrl(web_url_of(port)),
        MenuItem::OpenConfigFile => TrayActionView::OpenConfigFile,
        MenuItem::Restart => TrayActionView::Restart,
        MenuItem::Exit => TrayActionView::Exit,
    }
}

/// Mathematical model of a [`TrayManager`].
pub struct TrayManagerView {
    pub should_exit: bool,
    pub port: u16,
}

/// The state behind the tray icon: the port of the served page, and whether
/// the operator has asked to leave.
#[derive(Debug)]
pub struct TrayManager {
    should_exit: bool,
    port: u16,
}

impl View for TrayManager {
    type V = TrayManagerView;

    closed spec fn view(&self) -> TrayManagerView {
        TrayManagerView { should_exit: self.should_exit, port: self.port }
    }
}

impl TrayManager {
    /// A tray for the page served on `port`; nobody has asked to leave yet.
    pub fn new(port: u16) -> (tray: Self)
        ensures
            tray@ == (TrayManagerView { should_exit: false, port }),
    {
        TrayManager { should_exit: false, port }
    }

    /// Whether the operator has asked to leave.
    pub fn should_exit(&self) -> (exit: bool)
        ensures
            exit == self@.should_exit,
    {
        self.should_exit
    }

    /// The port of the served page.
    pub fn port(&self) -> (port: u16)
        ensures
            port == self@.port,
    {
        self.port
    }

    /// The address of the served page on this machine.
    pub fn web_url(&self) -> (url: String)
        ensures
            url@ == web_url_of(self@.port),
    {
        let mut url = String::from_str("http://localhost:");
        push_decimal(&mut url, self.port as u64);
        url
    }

    /// The operator chose `item`. Choosing `Exit` is remembered; every other
    /// entry leaves the tray as it was.
    pub fn select(&mut self, item: MenuItem) -> (action: TrayAction)
        ensures
            action@ == action_of(item, old(self)@.port),
            final(self)@.port == old(self)@.port,
            final(self)@.should_exit == (old(self)@.should_exit || item == MenuItem::Exit),
    {
        match item {
            MenuItem::OpenWebPage => TrayAction::OpenUrl(self.web_url()),
            MenuItem::OpenConfigFile => TrayAction::OpenConfigFile,
            MenuItem::Restart => TrayAction::Restart,
            MenuItem::Exit => {
                self.should_exit = true;
                TrayAction::Exit
            },
        }
    }
}

} // verus!
