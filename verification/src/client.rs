//! The state of the `lurkalyzer` terminal client and how it answers keys.

use vstd::prelude::*;

verus! {

/// The screen that the client shows.
#[derive(PartialEq, Eq, Debug, Clone, Copy)]
pub enum CurrentScreen {
    Main,
    Configuration,
    RawMode,
    LurkMode,
}

/// The client's state.
pub struct App {
    pub current_screen: CurrentScreen,
    pub server_address: String,
    pub server_port: u16,
    pub server_connected: bool,
}

/// The server that the configuration screen points the client at.
pub const CONFIGURED_SERVER: &'static str = "isoptera.lcsc.edu";

/// The port that the configuration screen points the client at.
pub const CONFIGURED_PORT: u16 = 5005;

/// A key that the client was handed.
#[derive(PartialEq, Eq, Debug, Clone, Copy)]
pub enum Key {
    /// A character key.
    Char(char),
    /// Any other key.
    Other,
}

impl App {
    /// The main screen, no server address, port 0, not connected.
    pub fn new() -> (app: App)
        ensures
            app.current_screen == CurrentScreen::Main,
            app.server_address@ == Seq::<char>::empty(),
            app.server_port == 0,
            !app.server_connected,
    {
        App {
            current_screen: CurrentScreen::Main,
            server_address: String::new(),
            server_port: 0,
            server_connected: false,
        }
    }

    /// Points the client at the server `ip` on `port`; nothing else changes.
    pub fn set_server(&mut self, ip: String, port: u16)
        ensures
            final(self).server_address == ip,
            final(self).server_port == port,
            final(self).current_screen == old(self).current_screen,
            final(self).server_connected == old(self).server_connected,
    {
        self.server_address = ip;
        self.server_port = port;
    }

    /// Shows the screen `target`; nothing else changes.
    pub fn switch_screen(&mut self, target: CurrentScreen)
        ensures
            final(self).current_screen == target,
            final(self).server_address == old(self).server_address,
            final(self).server_port == old(self).server_port,
            final(self).server_connected == old(self).server_connected,
    {
        self.current_screen = target;
    }

    /// Answers a key event; the result says whether the client quits.
    ///
    /// Releases are ignored. `m`, `r` and `l` show the main, raw and LURK
    /// screens; `c` shows the configuration screen and points the client at
    /// [`CONFIGURED_SERVER`] on [`CONFIGURED_PORT`]; `q` quits; any other key
    /// does nothing.
    pub fn handle_key(&mut self, key: Key, released: bool) -> (quit: bool)
        ensures
            quit == (!released && key == Key::Char('q')),
            final(self).server_connected == old(self).server_connected,
            final(self).current_screen == (if released {
                old(self).current_screen
            } else {
                match key {
                    Key::Char('m') => CurrentScreen::Main,
                    Key::Char('c') => CurrentScreen::Configuration,
                    Key::Char('r') => CurrentScreen::RawMode,
                    Key::Char('l') => CurrentScreen::LurkMode,
                    _ => old(self).current_screen,
                }
            }),
            !released && key == Key::Char('c') ==> {
                &&& final(self).server_address@ == CONFIGURED_SERVER@
                &&& final(self).server_port == CONFIGURED_PORT
            },
            released || key != Key::Char('c') ==> {
                &&& final(self).server_address == old(self).server_address
                &&& final(self).server_port == old(self).server_port
            },
    {
        if released {
            return false;
        }
        match key {
            Key::Char('m') => {
                self.current_screen = CurrentScreen::Main;
                false
            },
            Key::Char('c') => {
                self.current_screen = CurrentScreen::Configuration;
                self.set_server(CONFIGURED_SERVER.to_owned(), CONFIGURED_PORT);
                false
            },
            Key::Char('r') => {
                self.current_screen = CurrentScreen::RawMode;
                false
            },
            Key::Char('l') => {
                self.current_screen = CurrentScreen::LurkMode;
                false
            },
            Key::Char('q') => true,
            _ => false,
        }
    }
}

} // verus!
