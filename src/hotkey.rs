use vstd::prelude::*;
use crate::model::TimeEntry;
use crate::presentation::signed;
use crate::text::{push_signed, signed_decimal};

verus! {

/// The duration `total` minutes as a notification shows it: `{h}h {m}m`
/// when the whole hours are positive, else `{m}m`, with Rust's truncating
/// `/` and `%`.
pub open spec fn duration_text(total: int) -> Seq<char> {
    let neg = total < 0;
    let a = if neg { -total } else { total };
    let h = signed(neg, a / 60);
    let m = signed(neg, a % 60);
    if h > 0 {
        signed_decimal(h) + "h "@ + signed_decimal(m) + "m"@
    } else {
        signed_decimal(m) + "m"@
    }
}

/// Formats a duration given in whole minutes.
pub fn format_duration(total_minutes: i32) -> (r: String)
    ensures
        r@ == duration_text(total_minutes as int),
{
    let neg = total_minutes < 0;
    let a: u64 = if neg { (-(total_minutes as i64)) as u64 } else { total_minutes as u64 };
    let hours = a / 60;
    let minutes = a % 60;
    let mut s = String::new();
    if !neg && hours > 0 {
        push_signed(&mut s, neg, hours);
        s.append("h ");
    }
    push_signed(&mut s, neg, minutes);
    s.append("m");
    proof {
        let ghost t = total_minutes as int;
        let ghost mag = if t < 0 { -t } else { t };
        assert(a as int == mag);
        assert(s@ =~= duration_text(t));
    }
    s
}

/// The tooltip while no timer runs.
pub open spec fn idle_tooltip() -> Seq<char> {
    "FreshTracks - No active timer"@
}

/// The tooltip while the timer of `label` runs.
pub open spec fn running_tooltip(label: Seq<char>) -> Seq<char> {
    "FreshTracks - "@ + label + " (Running)"@
}

/// The tooltip for a running state reported by the window.
pub open spec fn status_tooltip_text(is_running: bool, project_name: Option<Seq<char>>) -> Seq<char> {
    if is_running {
        match project_name {
            Some(n) => running_tooltip(n),
            None => "FreshTracks - Timer Running"@,
        }
    } else {
        idle_tooltip()
    }
}

fn idle_tooltip_exec() -> (r: String)
    ensures
        r@ == idle_tooltip(),
{
    String::from_str("FreshTracks - No active timer")
}

fn running_tooltip_exec(label: &str) -> (r: String)
    ensures
        r@ == running_tooltip(label@),
{
    let mut s = String::from_str("FreshTracks - ");
    s.append(label);
    s.append(" (Running)");
    s
}

/// Builds the tooltip for a running state reported by the window.
pub fn status_tooltip(is_running: bool, project_name: Option<String>) -> (r: String)
    ensures
        r@ == status_tooltip_text(is_running, match project_name {
            Some(n) => Some(n@),
            None => None,
        }),
{
    if is_running {
        match project_name {
            Some(n) => running_tooltip_exec(n.as_str()),
            None => String::from_str("FreshTracks - Timer Running"),
        }
    } else {
        idle_tooltip_exec()
    }
}

/// How a started timer is named: client and project, the project alone
/// when it has no client, or `Project` when the entry names none.
pub open spec fn started_label(e: TimeEntry) -> Seq<char> {
    match e.project {
        Some(p) => match p.client {
            Some(c) => c.name@ + " - "@ + p.name@,
            None => p.name@,
        },
        None => "Project"@,
    }
}

/// The body of the notification for a stopped timer: the project's name (or
/// `Timer`) and the duration, when known.
pub open spec fn stopped_body(e: TimeEntry) -> Seq<char> {
    (match e.project {
        Some(p) => p.name@,
        None => "Timer"@,
    }) + " - "@ + (match e.duration_minutes {
        Some(m) => duration_text(m as int),
        None => Seq::empty(),
    })
}

/// Names a started timer.
pub fn started_label_exec(e: &TimeEntry) -> (r: String)
    ensures
        r@ == started_label(*e),
{
    match &e.project {
        Some(p) => match &p.client {
            Some(c) => {
                let mut s = c.name.clone();
                s.append(" - ");
                s.append(p.name.as_str());
                s
            },
            None => p.name.clone(),
        },
        None => String::from_str("Project"),
    }
}

/// Builds the notification body for a stopped timer.
pub fn stopped_body_exec(e: &TimeEntry) -> (r: String)
    ensures
        r@ == stopped_body(*e),
{
    let mut s = match &e.project {
        Some(p) => p.name.clone(),
        None => String::from_str("Timer"),
    };
    s.append(" - ");
    match e.duration_minutes {
        Some(m) => {
            let d = format_duration(m);
            s.append(d.as_str());
        },
        None => {},
    }
    proof {
        if e.duration_minutes is None {
            assert(s@ =~= stopped_body(*e));
        }
    }
    s
}

/// The state that a hotkey press acts on: the timer believed to run and the
/// project to start one on.
pub struct SyncCache {
    pub active: Option<TimeEntry>,
    pub first_project_id: Option<i32>,
}

/// What a hotkey press asks of the backend.
#[derive(PartialEq, Eq, Structural, Clone, Copy, Debug)]
pub enum HotkeyAction {
    /// Stop the timer with this identifier.
    Stop(i32),
    /// Start a timer on this project, without a description.
    Start(i32),
    /// Nothing to act on: show and focus the main window.
    ShowWindow,
}

/// What to show once the backend has accepted a start or a stop.
pub struct Feedback {
    pub title: String,
    pub body: String,
    pub tooltip: String,
    /// Whether the icon goes back to the idle image.
    pub idle_icon: bool,
    /// Whether the window is told to synchronize.
    pub toggled: bool,
}

impl SyncCache {
    /// A cache that knows of no timer and no project.
    pub fn new() -> (r: SyncCache)
        ensures
            r.active is None,
            r.first_project_id is None,
    {
        SyncCache { active: None, first_project_id: None }
    }

    /// Takes the state that the window reports. A missing project keeps the
    /// one known before.
    pub fn sync(&mut self, timer: Option<TimeEntry>, first_project_id: Option<i32>)
        ensures
            final(self).active == timer,
            final(self).first_project_id == (match first_project_id {
                Some(p) => Some(p),
                None => old(self).first_project_id,
            }),
    {
        self.active = timer;
        if let Some(p) = first_project_id {
            self.first_project_id = Some(p);
        }
    }

    /// Decides what a hotkey press does: stop the running timer, else start
    /// one on the known project, else show the window.
    pub fn hotkey_action(&self) -> (r: HotkeyAction)
        ensures
            r == (match self.active {
                Some(t) => HotkeyAction::Stop(t.id),
                None => match self.first_project_id {
                    Some(p) => HotkeyAction::Start(p),
                    None => HotkeyAction::ShowWindow,
                },
            }),
    {
        match &self.active {
            Some(t) => HotkeyAction::Stop(t.id),
            None => match self.first_project_id {
                Some(p) => HotkeyAction::Start(p),
                None => HotkeyAction::ShowWindow,
            },
        }
    }

    /// Takes the backend's answer to a stop. On success no timer runs any
    /// more and the feedback names the project and the duration; on failure
    /// nothing changes.
    pub fn finish_stop(&mut self, result: Result<TimeEntry, String>) -> (r: Option<Feedback>)
        ensures
            match result {
                Ok(e) => {
                    &&& final(self).active is None
                    &&& final(self).first_project_id == old(self).first_project_id
                    &&& r is Some
                    &&& r->0.title@ == "Timer Stopped"@
                    &&& r->0.body@ == stopped_body(e)
                    &&& r->0.tooltip@ == idle_tooltip()
                    &&& r->0.idle_icon
                    &&& r->0.toggled
                },
                Err(_) => *final(self) == *old(self) && r is None,
            },
    {
        match result {
            Ok(e) => {
                self.active = None;
                Some(Feedback {
                    title: String::from_str("Timer Stopped"),
                    body: stopped_body_exec(&e),
                    tooltip: idle_tooltip_exec(),
                    idle_icon: true,
                    toggled: true,
                })
            },
            Err(_) => None,
        }
    }

    /// Takes the backend's answer to a start. On success the new entry is
    /// the running timer and the feedback names it; on failure nothing
    /// changes.
    pub fn finish_start(&mut self, result: Result<TimeEntry, String>) -> (r: Option<Feedback>)
        ensures
            match result {
                Ok(e) => {
                    &&& final(self).active == Some(e)
                    &&& final(self).first_project_id == old(self).first_project_id
                    &&& r is Some
                    &&& r->0.title@ == "Timer Started"@
                    &&& r->0.body@ == started_label(e)
                    &&& r->0.tooltip@ == running_tooltip(started_label(e))
                    &&& !r->0.idle_icon
                    &&& r->0.toggled
                },
                Err(_) => *final(self) == *old(self) && r is None,
            },
    {
        match result {
            Ok(e) => {
                let label = started_label_exec(&e);
                let tooltip = running_tooltip_exec(label.as_str());
                self.active = Some(e);
                Some(Feedback {
                    title: String::from_str("Timer Started"),
                    body: label,
                    tooltip,
                    idle_icon: false,
                    toggled: true,
                })
            },
            Err(_) => None,
        }
    }
}

} // verus!
