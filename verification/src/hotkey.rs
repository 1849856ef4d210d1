//! The keystroke injector: a hotkey script that types a fixed payload, run by
//! an interpreter that is located afresh on every start.

use crate::process_handle::{
    FailureLabels, FailureLabelsView, HandleView, HelperProcessHandle, LaunchSpec, LaunchSpecView,
};
use crate::protocol::{Action, ActionView, Event, EventView};
use crate::text::concat3;
use vstd::prelude::*;

verus! {

/// The refusal of an empty payload.
pub open spec fn empty_payload_text() -> Seq<char> {
    "Texto para enviar não pode estar vazio"@
}

/// The refusal given when the injector's lock cannot be taken.
pub open spec fn hotkey_lock_text() -> Seq<char> {
    "Falha ao obter lock do HotkeyManager"@
}

/// The headings of the injector's failures.
pub open spec fn hotkey_labels() -> FailureLabelsView {
    FailureLabelsView {
        terminate: "Falha ao matar processo AutoHotkey: "@,
        remove: "Falha ao remover script temporário: "@,
        temp_dir: "Falha ao criar diretório temporário: "@,
        write: "Falha ao escrever script temporário: "@,
        spawn: "Falha ao iniciar AutoHotkey: "@,
    }
}

/// What the hotkey types: the payload between a fixed lead and a fixed tail.
pub open spec fn emulated_text(payload: Seq<char>) -> Seq<char> {
    ";"@ + payload + "=011903=004105713104?"@
}

/// The script that binds Ctrl+Q to typing `emulated_text(payload)`. The
/// payload stands in it verbatim.
pub open spec fn hotkey_script(payload: Seq<char>) -> Seq<char> {
    "#Requires AutoHotkey v2.0\n#SingleInstance force\n\n^q::\n{\n    SendInput \""@
        + emulated_text(payload) + "\"\n    return\n}\n"@
}

/// The launch of the injector: `program` runs the script for `payload`, with
/// the script's path as its only argument.
pub open spec fn hotkey_launch(program: Seq<char>, payload: Seq<char>) -> LaunchSpecView {
    LaunchSpecView {
        program,
        dir_prefix: "virtual_io_hub"@,
        script_name: "hotkey_script.ahk"@,
        script_content: hotkey_script(payload),
        extra_args: Seq::empty(),
    }
}

/// Renders the hotkey script for `payload`.
pub fn render_script(payload: &str) -> (script: String)
    ensures
        script@ == hotkey_script(payload@),
{
    let typed = concat3(";", payload, "=011903=004105713104?");
    concat3(
        "#Requires AutoHotkey v2.0\n#SingleInstance force\n\n^q::\n{\n    SendInput \"",
        typed.as_str(),
        "\"\n    return\n}\n",
    )
}

fn labels() -> (l: FailureLabels)
    ensures
        l@ == hotkey_labels(),
{
    FailureLabels {
        terminate: "Falha ao matar processo AutoHotkey: ".to_string(),
        remove: "Falha ao remover script temporário: ".to_string(),
        temp_dir: "Falha ao criar diretório temporário: ".to_string(),
        write: "Falha ao escrever script temporário: ".to_string(),
        spawn: "Falha ao iniciar AutoHotkey: ".to_string(),
    }
}

fn launch_of(program: String, payload: &str) -> (launch: LaunchSpec)
    ensures
        launch@ == hotkey_launch(program@, payload@),
{
    let launch = LaunchSpec {
        program,
        dir_prefix: "virtual_io_hub".to_string(),
        script_name: "hotkey_script.ahk".to_string(),
        script_content: render_script(payload),
        extra_args: Vec::new(),
    };
    assert(launch.extra_args.deep_view() =~= Seq::<Seq<char>>::empty());
    launch
}

/// Supervisor of the keystroke injector.
pub struct HotkeyManager<P> {
    handle: HelperProcessHandle<P>,
    payload: Option<String>,
}

/// The supervisor as the contracts see it.
pub struct HotkeyView<P> {
    /// The injector's process, its script and the script's directory.
    pub handle: HandleView<P>,
    /// The payload of a start that waits for the interpreter to be located.
    pub payload: Option<Seq<char>>,
}

impl<P> View for HotkeyManager<P> {
    type V = HotkeyView<P>;

    closed spec fn view(&self) -> HotkeyView<P> {
        HotkeyView {
            handle: self.handle@,
            payload: match self.payload {
                Some(p) => Some(p@),
                None => None,
            },
        }
    }
}

/// The first move of a start: an empty payload is refused before anything
/// is touched; otherwise the interpreter is to be located.
pub open spec fn start_step<P>(s: HotkeyView<P>, payload: Seq<char>) -> (
    HotkeyView<P>,
    ActionView<P>,
) {
    if payload.len() == 0 {
        (s, ActionView::Done(Err(empty_payload_text())))
    } else {
        (HotkeyView { payload: Some(payload), ..s }, ActionView::Locate)
    }
}

/// The first move of a stop: the handle's.
pub open spec fn stop_step<P>(s: HotkeyView<P>) -> (HotkeyView<P>, ActionView<P>) {
    let (handle, action) = crate::process_handle::stop_step(s.handle);
    (HotkeyView { handle, payload: None }, action)
}

/// The move that follows an event. While the interpreter is being located
/// only its location is taken; once it is known the handle starts the launch,
/// and a failure to locate it ends the start with the locator's own words.
pub open spec fn resume_step<P>(s: HotkeyView<P>, event: EventView<P>) -> (
    HotkeyView<P>,
    ActionView<P>,
) {
    match s.payload {
        Some(payload) => match event {
            EventView::Located(Ok(program)) => {
                let (handle, action) = crate::process_handle::start_step(
                    s.handle,
                    hotkey_launch(program, payload),
                );
                (HotkeyView { handle, payload: None }, action)
            },
            EventView::Located(Err(e)) => (
                HotkeyView { payload: None, ..s },
                ActionView::Done(Err(e)),
            ),
            _ => (s, ActionView::Rejected(event)),
        },
        None => {
            let (handle, action) = crate::process_handle::resume_step(s.handle, event);
            (HotkeyView { handle, payload: None }, action)
        },
    }
}

impl<P> HotkeyView<P> {
    /// What holds of every supervisor of the injector: its handle is
    /// well-formed and reports failures under the injector's headings.
    pub open spec fn wf(self) -> bool {
        self.handle.wf() && self.handle.labels == hotkey_labels()
    }
}

impl<P> HotkeyManager<P> {
    #[verifier::type_invariant]
    spec fn well_formed(&self) -> bool {
        self@.wf()
    }

    /// A supervisor that owns nothing.
    pub fn new() -> (manager: Self)
        ensures
            manager@.handle.owns_nothing(),
            manager@.handle.pending is Nothing,
            manager@.payload is None,
            manager@.wf(),
    {
        Self { handle: HelperProcessHandle::new(labels()), payload: None }
    }

    /// Whether a process is owned; not whether it is still alive.
    pub fn is_running(&self) -> (running: bool)
        ensures
            running == self@.handle.process is Some,
            self@.wf(),
    {
        proof {
            use_type_invariant(self);
        }
        self.handle.is_running()
    }

    /// Begins a start with `text_to_send` as the payload.
    pub fn start(&mut self, text_to_send: &str) -> (action: Action<P>)
        ensures
            (final(self)@, action@) == start_step(old(self)@, text_to_send@),
            old(self)@.wf(),
            final(self)@.wf(),
    {
        proof {
            use_type_invariant(&*self);
        }
        if text_to_send.unicode_len() == 0 {
            return Action::Done(Err("Texto para enviar não pode estar vazio".to_string()));
        }
        self.payload = Some(text_to_send.to_string());
        Action::Locate
    }

    /// Begins a stop.
    pub fn stop(&mut self) -> (action: Action<P>)
        ensures
            (final(self)@, action@) == stop_step(old(self)@),
            old(self)@.wf(),
            final(self)@.wf(),
            !(action@ is Spawn),
    {
        proof {
            use_type_invariant(&*self);
        }
        self.payload = None;
        // The handle makes its move outside the supervisor; an empty one
        // stands in for it meanwhile.
        let mut handle = HelperProcessHandle::new(labels());
        core::mem::swap(&mut self.handle, &mut handle);
        let action = handle.stop();
        core::mem::swap(&mut self.handle, &mut handle);
        action
    }

    /// Takes the host's answer to the last action and gives the next one. A
    /// process is asked for only while nothing is owned.
    pub fn resume(&mut self, event: Event<P>) -> (action: Action<P>)
        ensures
            (final(self)@, action@) == resume_step(old(self)@, event@),
            old(self)@.wf(),
            final(self)@.wf(),
            action@ is Spawn ==> old(self)@.handle.owns_nothing(),
    {
        proof {
            use_type_invariant(&*self);
        }
        let mut payload: Option<String> = None;
        core::mem::swap(&mut self.payload, &mut payload);
        match payload {
            Some(text) => match event {
                Event::Located(Ok(program)) => {
                    let launch = launch_of(program, text.as_str());
                    let mut handle = HelperProcessHandle::new(labels());
                    core::mem::swap(&mut self.handle, &mut handle);
                    let action = handle.start(launch);
                    core::mem::swap(&mut self.handle, &mut handle);
                    action
                },
                Event::Located(Err(e)) => Action::Done(Err(e)),
                event => {
                    self.payload = Some(text);
                    Action::Rejected(event)
                },
            },
            None => {
                let mut handle = HelperProcessHandle::new(labels());
                core::mem::swap(&mut self.handle, &mut handle);
                let action = handle.resume(event);
                core::mem::swap(&mut self.handle, &mut handle);
                action
            },
        }
    }
}

/// Starts the injector on request; `hotkey_manager` is `None` when its lock
/// could not be taken.
pub fn start_hotkey<P>(text_to_send: &str, hotkey_manager: Option<&mut HotkeyManager<P>>) -> (action:
    Action<P>)
    ensures
        match hotkey_manager {
            None => action@ == ActionView::<P>::Done(Err(hotkey_lock_text())),
            Some(m) => (final(m)@, action@) == start_step(m@, text_to_send@),
        },
{
    match hotkey_manager {
        Some(m) => m.start(text_to_send),
        None => Action::Done(Err("Falha ao obter lock do HotkeyManager".to_string())),
    }
}

/// Stops the injector on request; `hotkey_manager` is `None` when its lock
/// could not be taken.
pub fn stop_hotkey<P>(hotkey_manager: Option<&mut HotkeyManager<P>>) -> (action: Action<P>)
    ensures
        match hotkey_manager {
            None => action@ == ActionView::<P>::Done(Err(hotkey_lock_text())),
            Some(m) => (final(m)@, action@) == stop_step(m@),
        },
{
    match hotkey_manager {
        Some(m) => m.stop(),
        None => Action::Done(Err("Falha ao obter lock do HotkeyManager".to_string())),
    }
}

/// Tells on request whether the injector owns a process; `hotkey_manager`
/// is `None` when its lock could not be taken.
pub fn check_hotkey_status<P>(hotkey_manager: Option<&HotkeyManager<P>>) -> (status: Result<
    bool,
    String,
>)
    ensures
        match hotkey_manager {
            None => status matches Err(e) && e@ == hotkey_lock_text(),
            Some(m) => status == Ok::<bool, String>(m@.handle.process is Some),
        },
{
    match hotkey_manager {
        Some(m) => Ok(m.is_running()),
        None => Err("Falha ao obter lock do HotkeyManager".to_string()),
    }
}

/// An empty payload is refused by the first move of a start: the
/// supervisor stays as it was and the host is asked for nothing.
pub proof fn lemma_empty_payload_touches_nothing<P>(s: HotkeyView<P>)
    ensures
        start_step(s, Seq::<char>::empty()) == (
            s,
            ActionView::<P>::Done(Err(empty_payload_text())),
        ),
{
}

} // verus!
