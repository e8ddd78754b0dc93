//! The device screen, and how the device that playback goes to is chosen.
use vstd::prelude::*;
use vstd::string::*;
use crate::config::Config;
use crate::items::{line_prefix, Device};
use crate::menu::{
    back_reporting, done_reporting, index_failure, index_failure_step, quiet, reported,
    Menu, MenuResult, Outcome, Request, Screen, Step, quiet_outcome, reported_outcome,
};
use crate::notify::{enotify, error_notice, notice_is, notify, Notification};
use crate::selection::{selection_index, selection_index_of};
use crate::text::{concat, texts};

verus! {

#[derive(Debug, Clone, PartialEq, Eq)]
pub struct DeviceMenu {
    pub devices: Vec<Device>,
}

pub open spec fn no_id_text(name: Seq<char>) -> Seq<char> {
    "Device "@ + name + " has no ID"@
}

impl DeviceMenu {
    pub fn new(devices: Vec<Device>) -> (r: DeviceMenu)
        ensures
            r.devices == devices,
    {
        DeviceMenu { devices }
    }

    /// What selecting device `i` does: switch to it, or, when it has no
    /// identifier, go back with a report.
    pub open spec fn bound_action(&self, i: int, r: Step) -> bool {
        let d = self.devices@[i];
        match d.id {
            Some(id) => r == Step::Call(Request::SwitchDevice { id, name: d.name }),
            None => done_reporting(r, MenuResult::Back, no_id_text(d.name@)),
        }
    }
}

impl Menu for DeviceMenu {
    open spec fn lines(&self) -> Seq<Seq<char>> {
        Seq::new(self.devices@.len(), |i: int| line_prefix(i as nat) + self.devices@[i].entry())
    }

    fn items(&self) -> (r: Vec<String>) {
        let mut out: Vec<String> = Vec::new();
        let mut i: usize = 0;
        while i < self.devices.len()
            invariant
                i <= self.devices@.len(),
                out@.len() == i,
                forall|j: int| 0 <= j < i ==> #[trigger] out@[j]@ == line_prefix(j as nat) + self.devices@[j].entry(),
            decreases self.devices@.len() - i,
        {
            out.push(self.devices[i].list_item(i));
            i = i + 1;
        }
        assert(texts(out@) =~= self.lines());
        out
    }

    /// A line naming device `i` does what device `i` is bound to; an index
    /// past the end is a fault.
    open spec fn selects(&self, selection: Seq<char>, r: Step) -> bool {
        match selection_index_of(selection) {
            Ok(i) => if i < self.devices@.len() {
                self.bound_action(i as int, r)
            } else {
                r == Step::OutOfRange(i)
            },
            Err(e) => index_failure(selection, e, r),
        }
    }

    fn select(&self, selection: &str) -> (r: Step) {
        match selection_index(selection) {
            Ok(i) => {
                if i < self.devices.len() {
                    let d = &self.devices[i];
                    match &d.id {
                        Some(id) => Step::Call(Request::SwitchDevice { id: id.clone(), name: d.name.clone() }),
                        None => {
                            let mut body = concat("Device ", d.name.as_str());
                            body.append(" has no ID");
                            Step::Done(reported_outcome(MenuResult::Back, body.as_str()))
                        },
                    }
                } else {
                    Step::OutOfRange(i)
                }
            },
            Err(e) => index_failure_step(selection, e),
        }
    }
}

/// The result of fetching the user's devices.
pub fn devices_fetched(reply: Result<Vec<Device>, String>) -> (r: Outcome)
    ensures
        match reply {
            Ok(v) => quiet(r, MenuResult::Menu(Screen::Devices(DeviceMenu { devices: v }))),
            Err(m) => reported(r, MenuResult::Back, "Failed to get devices: "@ + m@),
        },
{
    match reply {
        Ok(v) => quiet_outcome(MenuResult::Menu(Screen::Devices(DeviceMenu::new(v)))),
        Err(m) => back_reporting("Failed to get devices: ", m.as_str()),
    }
}

/// How switching to a device went: the configuration is read, the device
/// stored in it, and playback moved, each step only after the one before
/// succeeded.
#[derive(Debug, Clone, PartialEq, Eq)]
pub enum DeviceSwitch {
    ConfigUnreadable(String),
    StoreFailed(String),
    TransferFailed(String),
    Switched,
}

/// The result of switching to the device called `name`: all screens close
/// with a confirmation, or the screen is left with a report.
pub fn device_switched(name: &str, reply: DeviceSwitch) -> (r: Outcome)
    ensures
        match reply {
            DeviceSwitch::ConfigUnreadable(m) => reported(r, MenuResult::Back, "Failed to load config: "@ + m@),
            DeviceSwitch::StoreFailed(m) => reported(r, MenuResult::Back, "Failed to set device to "@ + name@ + ": "@ + m@),
            DeviceSwitch::TransferFailed(m) => reported(r, MenuResult::Back, "Failed to switch playback to "@ + name@ + ": "@ + m@),
            DeviceSwitch::Switched => r.result == MenuResult::Exit && (r.notice matches Some(n) && notice_is(n, "Device set to "@ + name@, Seq::empty(), None)),
        },
{
    match reply {
        DeviceSwitch::ConfigUnreadable(m) => back_reporting("Failed to load config: ", m.as_str()),
        DeviceSwitch::StoreFailed(m) => {
            let mut prefix = concat("Failed to set device to ", name);
            prefix.append(": ");
            back_reporting(prefix.as_str(), m.as_str())
        },
        DeviceSwitch::TransferFailed(m) => {
            let mut prefix = concat("Failed to switch playback to ", name);
            prefix.append(": ");
            back_reporting(prefix.as_str(), m.as_str())
        },
        DeviceSwitch::Switched => {
            let summary = concat("Device set to ", name);
            let n = notify(summary.as_str(), "", None);
            proof { reveal_strlit(""); }
            assert(n.body@ == Seq::<char>::empty());
            assert(notice_is(n, "Device set to "@ + name@, Seq::empty(), None));
            Outcome { result: MenuResult::Exit, notice: Some(n) }
        },
    }
}

/// The first answer on which device to play on.
#[derive(Debug, Clone, PartialEq, Eq)]
pub enum DeviceChoice {
    /// Play on this device, or on whatever the service picks when `None`.
    Use(Option<String>),
    /// Let the user pick a device on the device screen, then read the
    /// configuration again and call `device_after_pick`.
    Pick,
}

pub open spec fn config_failure_text(m: Seq<char>) -> Seq<char> {
    "Failed to load device id from config: "@ + m
}

/// Chooses the device for a transport action from the configuration as it
/// was read: the configured default if there is one, else the user picks.
/// An unreadable configuration means no particular device, with a report.
pub fn device_id(config: Result<Config, String>) -> (r: (DeviceChoice, Option<Notification>))
    ensures
        match config {
            Ok(c) => match c.device_id {
                Some(id) => r.0 == DeviceChoice::Use(Some(id)) && r.1 is None,
                None => r.0 == DeviceChoice::Pick && r.1 is None,
            },
            Err(m) => r.0 == DeviceChoice::Use(None) && (r.1 matches Some(n) && error_notice(n, config_failure_text(m@))),
        },
{
    match config {
        Ok(c) => match c.device_id {
            Some(id) => (DeviceChoice::Use(Some(id)), None),
            None => (DeviceChoice::Pick, None),
        },
        Err(m) => {
            let body = concat("Failed to load device id from config: ", m.as_str());
            (DeviceChoice::Use(None), Some(enotify(body.as_str())))
        },
    }
}

/// The device after the user was asked to pick one, from the configuration
/// read again: whatever it names now, which may still be none.
pub fn device_after_pick(config: Result<Config, String>) -> (r: (Option<String>, Option<Notification>))
    ensures
        match config {
            Ok(c) => r.0 == c.device_id && r.1 is None,
            Err(m) => r.0 is None && (r.1 matches Some(n) && error_notice(n, config_failure_text(m@))),
        },
{
    match config {
        Ok(c) => (c.device_id, None),
        Err(m) => {
            let body = concat("Failed to load device id from config: ", m.as_str());
            (None, Some(enotify(body.as_str())))
        },
    }
}

} // verus!
