//! The state of the main window and how each interaction changes it.
use vstd::prelude::*;
use vstd::string::*;
use crate::options::{AppInterface, ScanOptions, ScanParas, ScanParasView, default_scan_paras};

verus! {

/// The state of the main window.
#[derive(Debug)]
pub struct RenmapApp {
    pub interface: AppInterface,
    pub show_error_message: bool,
    pub error_message: String,
    pub status_message: String,
    pub scan_paras: ScanParas,
}

/// The mathematical value of the window state.
pub struct RenmapAppView {
    pub interface: AppInterface,
    pub show_error_message: bool,
    pub error_message: Seq<char>,
    pub status_message: Seq<char>,
    pub scan_paras: ScanParasView,
}

impl View for RenmapApp {
    type V = RenmapAppView;

    open spec fn view(&self) -> RenmapAppView {
        RenmapAppView {
            interface: self.interface,
            show_error_message: self.show_error_message,
            error_message: self.error_message@,
            status_message: self.status_message@,
            scan_paras: self.scan_paras@,
        }
    }
}

/// The window as it opens: the scan screen, no error, status `ready`, the
/// default form.
pub open spec fn default_app() -> RenmapAppView {
    RenmapAppView {
        interface: AppInterface::Scan,
        show_error_message: false,
        error_message: Seq::empty(),
        status_message: "ready"@,
        scan_paras: default_scan_paras(),
    }
}

impl Default for RenmapApp {
    fn default() -> (r: Self)
        ensures
            r@ == default_app(),
    {
        let r = RenmapApp {
            interface: AppInterface::default(),
            show_error_message: false,
            error_message: String::new(),
            status_message: String::from_str("ready"),
            scan_paras: ScanParas::default(),
        };
        assert(r@ =~= default_app());
        r
    }
}

/// What the user did in the menus and dialogs.
#[derive(Clone, Copy, Debug, PartialEq, Eq, Structural)]
pub enum UiEvent {
    /// `Utils > Scan` was clicked.
    OpenScan,
    /// `Utils > About` was clicked.
    OpenAbout,
    /// `Options > Memory DB Mode` was clicked.
    ToggleMemoryMode,
    /// `Yes` in the dialog that confirms the memory mode.
    ConfirmMemoryMode,
    /// `No` in the dialog that confirms the memory mode.
    CancelMemoryMode,
    /// `Yes` in the error window.
    DismissError,
}

/// What the window asks its host to do after an event.
#[derive(Clone, Copy, Debug, PartialEq, Eq, Structural)]
pub enum UiAction {
    Nothing,
    /// Delete the results stored on disk; a failure is reported back with
    /// `set_error_mssage`.
    DropStoredResults,
}

/// Whether the dialog that confirms the memory mode is on screen.
pub open spec fn confirm_dialog_shown(a: RenmapAppView) -> bool {
    &&& a.interface == AppInterface::Scan
    &&& a.scan_paras.in_memory
    &&& a.scan_paras.in_memroy_confirm
}

/// The state after showing `e` as an error.
pub open spec fn with_error(a: RenmapAppView, e: Seq<char>) -> RenmapAppView {
    RenmapAppView { show_error_message: true, error_message: e, ..a }
}

/// The state and the request that an event leads to. A click on a control
/// that is not on screen (the `Options` menu outside the scan screen, the
/// confirmation dialog while it is hidden, the error window while it is
/// hidden) changes nothing.
pub open spec fn after_event(a: RenmapAppView, e: UiEvent) -> (RenmapAppView, UiAction) {
    match e {
        UiEvent::OpenScan => (RenmapAppView { interface: AppInterface::Scan, ..a }, UiAction::Nothing),
        UiEvent::OpenAbout => (RenmapAppView { interface: AppInterface::About, ..a }, UiAction::Nothing),
        UiEvent::ToggleMemoryMode => if a.interface == AppInterface::Scan {
            (
                RenmapAppView {
                    scan_paras: ScanParasView {
                        in_memory: !a.scan_paras.in_memory,
                        in_memroy_confirm: true,
                        ..a.scan_paras
                    },
                    ..a
                },
                UiAction::Nothing,
            )
        } else {
            (a, UiAction::Nothing)
        },
        UiEvent::ConfirmMemoryMode => if confirm_dialog_shown(a) {
            (
                RenmapAppView {
                    scan_paras: ScanParasView { in_memroy_confirm: false, ..a.scan_paras },
                    ..a
                },
                UiAction::DropStoredResults,
            )
        } else {
            (a, UiAction::Nothing)
        },
        UiEvent::CancelMemoryMode => if confirm_dialog_shown(a) {
            (
                RenmapAppView {
                    scan_paras: ScanParasView {
                        in_memroy_confirm: false,
                        in_memory: false,
                        ..a.scan_paras
                    },
                    ..a
                },
                UiAction::Nothing,
            )
        } else {
            (a, UiAction::Nothing)
        },
        UiEvent::DismissError => (RenmapAppView { show_error_message: false, ..a }, UiAction::Nothing),
    }
}

/// The state after the scan worker's reply: a non-empty message, or a
/// failure to receive one, is shown as an error; an empty message leaves the
/// state as it is.
pub open spec fn after_scan_reply(a: RenmapAppView, reply: Result<Seq<char>, Seq<char>>) -> RenmapAppView {
    match reply {
        Ok(msg) => if msg.len() > 0 { with_error(a, msg) } else { a },
        Err(e) => with_error(a, e),
    }
}

/// What a scan is started with: copies of the target, the port and the
/// options of the form.
#[derive(Debug)]
pub struct ScanJob {
    pub target_addr: String,
    pub target_port: String,
    pub scan_options: ScanOptions,
}

impl RenmapApp {
    /// Whether the dialog that confirms the memory mode is to be drawn.
    pub fn confirm_dialog_visible(&self) -> (r: bool)
        ensures
            r == confirm_dialog_shown(self@),
    {
        match self.interface {
            AppInterface::Scan => self.scan_paras.in_memory && self.scan_paras.in_memroy_confirm,
            AppInterface::About => false,
        }
    }

    /// Shows `e` in the error window.
    pub fn set_error_mssage(&mut self, e: &str)
        ensures
            final(self)@ == with_error(old(self)@, e@),
            final(self)@ == (RenmapAppView { show_error_message: true, error_message: e@, ..old(self)@ }),
    {
        self.show_error_message = true;
        self.error_message = String::from_str(e);
    }

    /// Applies a click in the menus or dialogs, and says what the host is to
    /// do next.
    pub fn handle_event(&mut self, event: UiEvent) -> (action: UiAction)
        ensures
            final(self)@ == after_event(old(self)@, event).0,
            action == after_event(old(self)@, event).1,
    {
        match event {
            UiEvent::OpenScan => {
                self.interface = AppInterface::Scan;
                UiAction::Nothing
            },
            UiEvent::OpenAbout => {
                self.interface = AppInterface::About;
                UiAction::Nothing
            },
            UiEvent::ToggleMemoryMode => {
                match self.interface {
                    AppInterface::Scan => {
                        self.scan_paras.in_memory = !self.scan_paras.in_memory;
                        self.scan_paras.in_memroy_confirm = true;
                    },
                    AppInterface::About => {},
                }
                UiAction::Nothing
            },
            UiEvent::ConfirmMemoryMode => {
                if self.confirm_dialog_visible() {
                    self.scan_paras.in_memroy_confirm = false;
                    UiAction::DropStoredResults
                } else {
                    UiAction::Nothing
                }
            },
            UiEvent::CancelMemoryMode => {
                if self.confirm_dialog_visible() {
                    self.scan_paras.in_memroy_confirm = false;
                    self.scan_paras.in_memory = false;
                }
                UiAction::Nothing
            },
            UiEvent::DismissError => {
                self.show_error_message = false;
                UiAction::Nothing
            },
        }
    }

    /// The `Scan` button: the status reads `Scanning...` and the job to run
    /// carries copies of the target, port and options of the form.
    pub fn start_scan(&mut self) -> (job: ScanJob)
        ensures
            final(self)@ == (RenmapAppView { status_message: "Scanning..."@, ..old(self)@ }),
            job.target_addr@ == old(self)@.scan_paras.target_addr,
            job.target_port@ == old(self)@.scan_paras.target_port,
            job.scan_options == old(self)@.scan_paras.scan_options,
    {
        let job = ScanJob {
            target_addr: self.scan_paras.target_addr.clone(),
            target_port: self.scan_paras.target_port.clone(),
            scan_options: self.scan_paras.scan_options,
        };
        self.status_message = String::from_str("Scanning...");
        job
    }

    /// Takes the reply of the scan worker: an empty message means success; a
    /// non-empty one, or the text of a failure to receive, goes to the error
    /// window.
    pub fn finish_scan(&mut self, reply: Result<String, String>)
        ensures
            final(self)@ == after_scan_reply(old(self)@, match reply {
                Ok(m) => Ok(m@),
                Err(e) => Err(e@),
            }),
            match reply {
                Ok(m) => if m@.len() > 0 {
                    final(self)@ == (RenmapAppView {
                        show_error_message: true,
                        error_message: m@,
                        ..old(self)@
                    })
                } else {
                    final(self)@ == old(self)@
                },
                Err(e) => final(self)@ == (RenmapAppView {
                    show_error_message: true,
                    error_message: e@,
                    ..old(self)@
                }),
            },
    {
        match reply {
            Ok(msg) => {
                if !msg.as_str().is_empty() {
                    self.set_error_mssage(msg.as_str());
                }
            },
            Err(e) => self.set_error_mssage(e.as_str()),
        }
    }
}

/// Clicking `Memory DB Mode` twice on the scan screen leaves the memory mode
/// as it was (the confirmation flag is then set).
pub proof fn law_memory_toggle_twice(a: RenmapAppView)
    requires
        a.interface == AppInterface::Scan,
    ensures
        ({
            let b = after_event(after_event(a, UiEvent::ToggleMemoryMode).0, UiEvent::ToggleMemoryMode).0;
            b == RenmapAppView {
                scan_paras: ScanParasView { in_memroy_confirm: true, ..a.scan_paras },
                ..a
            }
        }),
{
}

/// Turning the memory mode on and answering `No` in the dialog that follows
/// turns it off again and closes the dialog, and asks for nothing.
pub proof fn law_cancel_undoes_memory_mode(a: RenmapAppView)
    requires
        a.interface == AppInterface::Scan,
        !a.scan_paras.in_memory,
    ensures
        ({
            let r = after_event(after_event(a, UiEvent::ToggleMemoryMode).0, UiEvent::CancelMemoryMode);
            &&& r.0 == RenmapAppView {
                scan_paras: ScanParasView { in_memroy_confirm: false, ..a.scan_paras },
                ..a
            }
            &&& r.1 == UiAction::Nothing
            &&& !confirm_dialog_shown(r.0)
        }),
{
}

/// Turning the memory mode on and answering `Yes` keeps it on, closes the
/// dialog and asks for the stored results to be deleted.
pub proof fn law_confirm_keeps_memory_mode(a: RenmapAppView)
    requires
        a.interface == AppInterface::Scan,
        !a.scan_paras.in_memory,
    ensures
        ({
            let r = after_event(after_event(a, UiEvent::ToggleMemoryMode).0, UiEvent::ConfirmMemoryMode);
            &&& r.0.scan_paras.in_memory
            &&& !confirm_dialog_shown(r.0)
            &&& r.1 == UiAction::DropStoredResults
        }),
{
}

/// The stored results are only ever deleted on `Yes` in the confirmation
/// dialog while it is on screen.
pub proof fn law_drop_only_when_confirmed(a: RenmapAppView, e: UiEvent)
    ensures
        after_event(a, e).1 == UiAction::DropStoredResults <==> (e == UiEvent::ConfirmMemoryMode
            && confirm_dialog_shown(a)),
{
}

/// No menu or dialog event changes the texts of the form, the status line or
/// the error text, nor the scan options.
pub proof fn law_events_keep_texts(a: RenmapAppView, e: UiEvent)
    ensures
        ({
            let b = after_event(a, e).0;
            &&& b.error_message == a.error_message
            &&& b.status_message == a.status_message
            &&& b.scan_paras.target_addr == a.scan_paras.target_addr
            &&& b.scan_paras.target_port == a.scan_paras.target_port
            &&& b.scan_paras.exclued_target_addr == a.scan_paras.exclued_target_addr
            &&& b.scan_paras.exclued_target_port == a.scan_paras.exclued_target_port
            &&& b.scan_paras.timeout == a.scan_paras.timeout
            &&& b.scan_paras.scan_options == a.scan_paras.scan_options
        }),
{
}

/// An error that was shown and then dismissed closes the error window and
/// leaves its text in place; nothing else changes.
pub proof fn law_error_shown_then_dismissed(a: RenmapAppView, e: Seq<char>)
    ensures
        after_event(with_error(a, e), UiEvent::DismissError).0 == (RenmapAppView {
            show_error_message: false,
            error_message: e,
            ..a
        }),
{
}

/// Whatever the window showed before, a non-empty reply of the scan worker
/// (or a failure to receive one) opens the error window with exactly that
/// text, replacing any earlier error; an empty reply changes nothing.
pub proof fn law_scan_reply_replaces_error(a: RenmapAppView, m: Seq<char>)
    ensures
        m.len() > 0 ==> after_scan_reply(a, Ok(m)) == (RenmapAppView {
            show_error_message: true,
            error_message: m,
            ..a
        }),
        m.len() == 0 ==> after_scan_reply(a, Ok(m)) == a,
        after_scan_reply(a, Err(m)) == (RenmapAppView { show_error_message: true, error_message: m, ..a }),
{
}

/// What each click does, control by control: the `Utils` entries switch the
/// screen and nothing else; `Memory DB Mode` flips the memory mode and raises
/// the confirmation only on the scan screen; the confirmation dialog is on
/// screen exactly on the scan screen with the memory mode on and a
/// confirmation pending; `Yes` there only closes it (and asks for the stored
/// results to be dropped), `No` closes it and turns the memory mode off; the
/// error window's `Yes` only closes that window.
pub proof fn law_event_effects(a: RenmapAppView)
    ensures
        confirm_dialog_shown(a) <==> (a.interface == AppInterface::Scan && a.scan_paras.in_memory
            && a.scan_paras.in_memroy_confirm),
        after_event(a, UiEvent::OpenScan) == (RenmapAppView { interface: AppInterface::Scan, ..a }, UiAction::Nothing),
        after_event(a, UiEvent::OpenAbout) == (RenmapAppView { interface: AppInterface::About, ..a }, UiAction::Nothing),
        a.interface == AppInterface::About ==> after_event(a, UiEvent::ToggleMemoryMode) == (a, UiAction::Nothing),
        a.interface == AppInterface::Scan ==> after_event(a, UiEvent::ToggleMemoryMode).0 == (RenmapAppView {
            scan_paras: ScanParasView {
                in_memory: !a.scan_paras.in_memory,
                in_memroy_confirm: true,
                ..a.scan_paras
            },
            ..a
        }),
        !confirm_dialog_shown(a) ==> after_event(a, UiEvent::ConfirmMemoryMode) == (a, UiAction::Nothing)
            && after_event(a, UiEvent::CancelMemoryMode) == (a, UiAction::Nothing),
        confirm_dialog_shown(a) ==> after_event(a, UiEvent::ConfirmMemoryMode).0 == (RenmapAppView {
            scan_paras: ScanParasView { in_memroy_confirm: false, ..a.scan_paras },
            ..a
        }),
        confirm_dialog_shown(a) ==> after_event(a, UiEvent::CancelMemoryMode).0 == (RenmapAppView {
            scan_paras: ScanParasView { in_memroy_confirm: false, in_memory: false, ..a.scan_paras },
            ..a
        }),
        after_event(a, UiEvent::DismissError) == (RenmapAppView { show_error_message: false, ..a }, UiAction::Nothing),
        with_error(a, a.error_message).show_error_message,
{
}

} // verus!
