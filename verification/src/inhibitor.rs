//! Inhibitors: the mechanisms that keep the machine awake. Each one here is the
//! bookkeeping of a mechanism, without the calls to the operating system: it decides
//! when a resource has to be acquired or released, and owns the handle in between.

use vstd::prelude::*;
use vstd::string::StringExecFns;
use crate::inhibitor::logind::LogindInhibit;
use crate::inhibitor::mouse_jitter::MouseJitter;
use crate::inhibitor::xfce_power_manager::XfcePowerManager;
use crate::inhibitor::xfce_screen_saver::XfceScreenSaver;
use crate::inhibitor::xscreensaver::XScreensaver;
use crate::time::{Span, NANOS_PER_SEC};

pub mod logind;
pub mod mouse_jitter;
pub mod xfce_power_manager;
pub mod xfce_screen_saver;
pub mod xscreensaver;

verus! {

/// Whether an inhibit request has to acquire a resource: only while none is held.
pub open spec fn must_acquire<H>(held: Option<H>) -> bool {
    held is None
}

/// The handle held after `handle` was acquired: the new one if none was held, else the
/// one that was held before.
pub open spec fn after_acquired<H>(held: Option<H>, handle: H) -> Option<H> {
    match held {
        None => Some(handle),
        Some(_) => held,
    }
}

/// The handle that is left over after `handle` was acquired: the new one if another was
/// held already. The caller releases it.
pub open spec fn surplus_of<H>(held: Option<H>, handle: H) -> Option<H> {
    match held {
        None => None,
        Some(_) => Some(handle),
    }
}

/// How many resources an inhibitor with this handle holds.
pub open spec fn held_count<H>(held: Option<H>) -> nat {
    match held {
        None => 0,
        Some(_) => 1,
    }
}

/// The bookkeeping of one mechanism. The caller performs the calls to the operating
/// system: it acquires a resource where `inhibit` says so and hands it to `acquired`,
/// and it releases what `uninhibit` hands back.
pub trait Inhibitor {
    /// What stands for the resource: a task, a file descriptor, a cookie.
    type Handle;

    /// The handle that is held, if any.
    spec fn handle(&self) -> Option<Self::Handle>;

    /// Whether a resource has to be acquired to keep the machine awake. While one is held
    /// the answer is no: inhibiting twice never acquires twice.
    fn inhibit(&self) -> (acquire: bool)
        ensures
            acquire == must_acquire(self.handle()),
    ;

    /// Records that `handle` was acquired. If a handle is held already it stays, and the
    /// new one comes back to be released.
    fn acquired(&mut self, handle: Self::Handle) -> (surplus: Option<Self::Handle>)
        ensures
            final(self).handle() == after_acquired(old(self).handle(), handle),
            surplus == surplus_of(old(self).handle(), handle),
    ;

    /// Gives up the handle, if one is held, for the caller to release. Safe to call in
    /// any state, also if no inhibit ever succeeded.
    fn uninhibit(&mut self) -> (released: Option<Self::Handle>)
        ensures
            released == old(self).handle(),
            final(self).handle() is None,
    ;
}

/// Inhibiting again after a handle was acquired acquires nothing: whatever was held
/// before, exactly one handle is held afterwards, it stays the same one, and a handle
/// acquired all the same is handed back.
pub proof fn inhibit_twice_holds_one<H>(held: Option<H>, first: H, second: H)
    ensures
        held_count(after_acquired(held, first)) == 1,
        !must_acquire(after_acquired(held, first)),
        after_acquired(after_acquired(held, first), second) == after_acquired(held, first),
        surplus_of(after_acquired(held, first), second) == Some(second),
{
}

/// The message bus on which a service is reached.
#[derive(Clone, Copy, Debug, PartialEq, Eq, Structural)]
pub enum Bus {
    /// The bus of the whole system.
    System,
    /// The bus of the user's session.
    Session,
}

/// The mechanisms to choose from.
#[derive(Clone, Copy, Debug, PartialEq, Eq, Structural)]
#[non_exhaustive]
pub enum InhibitMode {
    /// Inhibit sleep from xfce4-power-manager
    Xfce4PowerManager,
    /// Inhibit sleep from xfce4-screensaver
    Xfce4Screensaver,
    /// Inhibit sleep with a lease from the session manager
    Logind,
    /// Reset the XScreenSaver timer at intervals
    Xscreensaver,
    /// Inhibit sleep with occasional mouse jitter
    MouseJitter,
}

/// A name that stands for no mechanism.
#[derive(Debug)]
pub struct UnknownMechanism {
    pub name: String,
}

impl UnknownMechanism {
    /// The error as a sentence.
    pub fn message(&self) -> (text: String)
        ensures
            text@ == "unknown mechanism: "@ + self.name@,
    {
        String::from_str("unknown mechanism: ").concat(self.name.as_str())
    }
}

/// The mechanism that `name` stands for, if any.
pub open spec fn mode_named(name: Seq<char>) -> Option<InhibitMode> {
    if name == "xscreensaver"@ || name == "xset"@ {
        Some(InhibitMode::Xscreensaver)
    } else if name == "logind"@ {
        Some(InhibitMode::Logind)
    } else if name == "xfce4-power-manager"@ || name == "xfce"@ || name == "xfce4"@ {
        Some(InhibitMode::Xfce4PowerManager)
    } else if name == "xfce4-screensaver"@ {
        Some(InhibitMode::Xfce4Screensaver)
    } else if name == "mouse-jitter"@ || name == "mouse"@ {
        Some(InhibitMode::MouseJitter)
    } else {
        None
    }
}

/// Whether two strings hold the same text.
fn same_text(left: &str, right: &str) -> (same: bool)
    ensures
        same == (left@ == right@),
{
    let left = left.to_owned();
    let right = right.to_owned();
    left == right
}

impl InhibitMode {
    /// Reads a mechanism from its name or one of its aliases.
    pub fn from_str(s: &str) -> (parsed: Result<InhibitMode, UnknownMechanism>)
        ensures
            mode_named(s@) matches Some(mode) ==> (parsed matches Ok(found) && found == mode),
            mode_named(s@) is None ==> (parsed matches Err(unknown) && unknown.name@ == s@),
    {
        if same_text(s, "xscreensaver") || same_text(s, "xset") {
            Ok(InhibitMode::Xscreensaver)
        } else if same_text(s, "logind") {
            Ok(InhibitMode::Logind)
        } else if same_text(s, "xfce4-power-manager") || same_text(s, "xfce") || same_text(
            s,
            "xfce4",
        ) {
            Ok(InhibitMode::Xfce4PowerManager)
        } else if same_text(s, "xfce4-screensaver") {
            Ok(InhibitMode::Xfce4Screensaver)
        } else if same_text(s, "mouse-jitter") || same_text(s, "mouse") {
            Ok(InhibitMode::MouseJitter)
        } else {
            Err(UnknownMechanism { name: s.to_owned() })
        }
    }
}

/// Seconds between two runs of a periodic task: one minute.
pub const TASK_INTERVAL_SECS: u64 = 60;

/// An inhibitor of any of the mechanisms. `T` is the handle of a periodic task, `F` the
/// lease of the session manager.
pub enum Backend<T, F> {
    Xscreensaver(XScreensaver<T>),
    Logind(LogindInhibit<F>),
    Xfce4PowerManager(XfcePowerManager),
    Xfce4Screensaver(XfceScreenSaver),
    MouseJitter(MouseJitter<T>),
}

/// Whether `backend` is the inhibitor that `mode` selects, as it is before its first
/// use: of the mechanism that `mode` names, holding nothing, with a period of one
/// minute where it runs a task, the system bus for the session manager and the session
/// bus for the desktop services.
pub open spec fn selected_by<T, F>(backend: Backend<T, F>, mode: InhibitMode) -> bool {
    match mode {
        InhibitMode::Xscreensaver => backend matches Backend::Xscreensaver(inhibitor)
            && inhibitor.handle() is None && inhibitor.period()@ == TASK_INTERVAL_SECS
            * NANOS_PER_SEC,
        InhibitMode::Logind => backend matches Backend::Logind(inhibitor) && inhibitor.handle()
            is None && inhibitor.spec_bus() == Bus::System,
        InhibitMode::Xfce4PowerManager => backend matches Backend::Xfce4PowerManager(inhibitor)
            && inhibitor.handle() is None && inhibitor.spec_bus() == Bus::Session,
        InhibitMode::Xfce4Screensaver => backend matches Backend::Xfce4Screensaver(inhibitor)
            && inhibitor.handle() is None && inhibitor.spec_bus() == Bus::Session,
        InhibitMode::MouseJitter => backend matches Backend::MouseJitter(inhibitor)
            && inhibitor.handle() is None && inhibitor.period()@ == TASK_INTERVAL_SECS
            * NANOS_PER_SEC,
    }
}

/// The inhibitor that `mode` selects.
pub fn from_mode<T, F>(mode: InhibitMode) -> (backend: Backend<T, F>)
    ensures
        selected_by(backend, mode),
{
    match mode {
        InhibitMode::Xscreensaver => Backend::Xscreensaver(
            XScreensaver::new(Span::from_secs(TASK_INTERVAL_SECS)),
        ),
        InhibitMode::Logind => Backend::Logind(LogindInhibit::new(Bus::System)),
        InhibitMode::Xfce4PowerManager => Backend::Xfce4PowerManager(
            XfcePowerManager::new(Bus::Session),
        ),
        InhibitMode::Xfce4Screensaver => Backend::Xfce4Screensaver(
            XfceScreenSaver::new(Bus::Session),
        ),
        InhibitMode::MouseJitter => Backend::MouseJitter(
            MouseJitter::new(Span::from_secs(TASK_INTERVAL_SECS)),
        ),
    }
}

/// What probing one mechanism on this machine gave.
#[derive(Clone, Copy, Debug, PartialEq, Eq, Structural)]
pub enum Probe {
    /// The inhibitor could not be set up.
    SetupFailed,
    /// The inhibitor was set up, and the probe itself failed.
    ProbeFailed,
    /// The probe said whether the mechanism is there.
    Answered(bool),
}

/// Whether a probe shows that the mechanism can be used: only a plain yes does, and
/// every failure counts as a no.
pub open spec fn usable(probe: Probe) -> bool {
    probe == Probe::Answered(true)
}

/// The mechanisms among `probes` that can be used, in the order in which they were
/// probed.
pub open spec fn usable_modes(probes: Seq<(InhibitMode, Probe)>) -> Seq<InhibitMode> {
    probes.filter(|entry: (InhibitMode, Probe)| usable(entry.1)).map_values(
        |entry: (InhibitMode, Probe)| entry.0,
    )
}

/// Whether a probe shows that the mechanism can be used.
pub fn available(probe: Probe) -> (yes: bool)
    ensures
        yes == usable(probe),
{
    match probe {
        Probe::Answered(answer) => answer,
        _ => false,
    }
}

/// The mechanisms that can be used on this machine, given what probing each one gave.
pub fn available_modes(probes: &Vec<(InhibitMode, Probe)>) -> (modes: Vec<InhibitMode>)
    ensures
        modes@ == usable_modes(probes@),
{
    let mut modes: Vec<InhibitMode> = Vec::new();
    let mut index: usize = 0;
    assert(probes@.take(0) =~= Seq::<(InhibitMode, Probe)>::empty());
    while index < probes.len()
        invariant
            index <= probes@.len(),
            modes@ == usable_modes(probes@.take(index as int)),
        decreases probes@.len() - index,
    {
        let entry = probes[index];
        proof {
            let before = probes@.take(index as int);
            let next = probes@.take(index + 1);
            assert(next.drop_last() =~= before);
            assert(next.last() == entry);
            reveal(Seq::filter);
            assert(usable_modes(next) =~= if usable(entry.1) {
                usable_modes(before).push(entry.0)
            } else {
                usable_modes(before)
            });
        }
        if available(entry.1) {
            modes.push(entry.0);
        }
        index += 1;
    }
    assert(probes@.take(index as int) =~= probes@);
    modes
}

} // verus!
