//! The notification window's model: what the window currently presents, as
//! plain state driven one message at a time.
//!
//! Drawing the widgets is the display collaborator's business and stands
//! outside this crate; this model pins down exactly how each message changes
//! what is presented — which row is up, with which icon and value, whether
//! the window is visible, whether a deferred hide is scheduled, and whether
//! the application has been asked to quit.

use vstd::prelude::*;

use crate::config::Config;
use crate::threlm::{Actor, Model};
use crate::Fraction;

verus! {

/// An immutable value describing one requested state transition; the closed
/// set of messages the window model consumes.
#[derive(Clone, Copy, Debug)]
pub enum Msg {
    /// Show the icon with the percentage bar at the given fraction.
    ShowPercent(&'static str, Fraction),
    /// Show the icon with a status label.
    ShowBool(&'static str, &'static str),
    /// Hide the window.
    Hide,
    /// Quit the application.
    Quit,
}

/// Which content row the window presents under the icon.
#[derive(Clone, Copy, Debug)]
pub enum Panel {
    /// Neither row is up.
    Empty,
    /// The percentage bar, at the given fraction.
    Percent(Fraction),
    /// The status row; the label text stands here only where the
    /// configuration asks for labels to be shown.
    Boolean(Option<&'static str>),
}

/// The one mutable copy of what the notification window presents. Mutated
/// only through [`Model::update`], so only by the home thread, one message
/// at a time.
pub struct Window {
    pub config: Config,
    pub visible: bool,
    pub icon: &'static str,
    pub panel: Panel,
    /// Whether a deferred hide is scheduled.
    pub hide_armed: bool,
    /// Whether the application has been asked to quit.
    pub quit_requested: bool,
}

impl Window {
    /// A fresh window model: hidden, with nothing presented.
    pub fn new(config: Config) -> (w: Self)
        ensures
            w.config == config,
            !w.visible,
            w.icon@ == Seq::<char>::empty(),
            w.panel is Empty,
            !w.hide_armed,
            !w.quit_requested,
    {
        proof {
            reveal_strlit("");
        }
        Window {
            config,
            visible: false,
            icon: "",
            panel: Panel::Empty,
            hide_armed: false,
            quit_requested: false,
        }
    }

    /// Schedule the deferred hide that takes the window down again after the
    /// configured duration, replacing whatever hide was already scheduled.
    /// The timer itself runs outside this crate; when it fires it submits
    /// [`Msg::Hide`] through the window's own handle.
    fn hide_timeout(&mut self)
        ensures
            *final(self) == (Window { hide_armed: true, ..*old(self) }),
    {
        self.hide_armed = true;
    }

    /// Apply one message to the presented state.
    ///
    /// A percentage message puts the percentage row up with its fraction; a
    /// status message puts the status row up, with the label exactly where
    /// the configuration asks for labels; both set the icon, show the window
    /// and schedule the deferred hide. A hide message takes the window down
    /// and cancels the deferred hide. A quit message only records the
    /// request. Nothing else changes: the configuration and the quit flag
    /// ride through every non-quit message unchanged.
    pub fn apply(&mut self, msg: Msg)
        ensures
            msg matches Msg::ShowPercent(icon, value) ==> *final(self) == (Window {
                visible: true,
                icon,
                panel: Panel::Percent(value),
                hide_armed: true,
                ..*old(self)
            }),
            msg matches Msg::ShowBool(icon, label) ==> *final(self) == (Window {
                visible: true,
                icon,
                panel: Panel::Boolean(
                    if old(self).config.boolean.show_label {
                        Some(label)
                    } else {
                        None
                    },
                ),
                hide_armed: true,
                ..*old(self)
            }),
            msg is Hide ==> *final(self) == (Window {
                visible: false,
                hide_armed: false,
                ..*old(self)
            }),
            msg is Quit ==> *final(self) == (Window { quit_requested: true, ..*old(self) }),
    {
        match msg {
            Msg::ShowPercent(icon, value) => {
                self.icon = icon;
                self.panel = Panel::Percent(value);
                self.visible = true;
                self.hide_timeout();
            },
            Msg::ShowBool(icon, label) => {
                self.icon = icon;
                self.panel = Panel::Boolean(
                    if self.config.boolean.show_label {
                        Some(label)
                    } else {
                        None
                    },
                );
                self.visible = true;
                self.hide_timeout();
            },
            Msg::Hide => {
                self.hide_armed = false;
                self.visible = false;
            },
            Msg::Quit => {
                self.quit_requested = true;
            },
        }
    }
}

impl Model for Window {
    type Message = Msg;

    fn connect(&self, _stream: Actor<Self>) {
    }

    fn update(&mut self, message: Msg, _stream: Actor<Self>) {
        self.apply(message);
    }
}

} // verus!
