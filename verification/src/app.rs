//! The capability broker every application receives, and the contract the
//! applications implement. The broker wraps a possibly-absent interpreter,
//! the display-mode handle, the keyboard, the filesystem, a run/quit flag,
//! and the deferred-call queue the host replays at its next checkpoint.

use vstd::prelude::*;
use vstd::string::*;

use crate::display::{GraphicsHandle, TextWriter, VgaModeSwitch, VideoModeError};
use crate::files::FileSystem;
use crate::forth::{fragment_effect, simple_token, spec_tokens, ForthMachine, STEP_LIMIT};
use crate::input::{Key, Keyboard};
use crate::stack::Stack;

verus! {

/// The error an application's argument-validation hook can report.
#[derive(Clone, Copy, Debug, PartialEq, Eq, Structural)]
pub enum StartError {
    InvalidStartParameter,
}

/// What an application invocation can report.
pub enum ProgramError {
    /// A malformed or missing stack argument.
    InvalidStartParameter,
    /// A lookup, read or write on the filesystem failed.
    FileSystemError,
    /// An application-defined failure.
    Custom(String),
}

impl ProgramError {
    /// A short diagnostic for the active text display.
    pub fn describe(&self) -> (r: String)
        ensures
            self is InvalidStartParameter ==> r@ == "invalid start parameter"@,
            self is FileSystemError ==> r@ == "file system error"@,
            self matches ProgramError::Custom(m) ==> r@ == m@,
    {
        match self {
            ProgramError::InvalidStartParameter => String::from_str("invalid start parameter"),
            ProgramError::FileSystemError => String::from_str("file system error"),
            ProgramError::Custom(m) => m.clone(),
        }
    }
}

/// Whether the application wants to keep running.
#[derive(Clone, Copy, Debug, PartialEq, Eq, Structural)]
pub enum ControlFlow {
    Running,
    Quit,
}

/// One deferred call: an action queued by the broker because the required
/// context is not available until the host's next checkpoint.
pub enum SystemCall {
    /// Apply a display-mode switch between application ticks.
    SwitchGraphics(VgaModeSwitch),
    /// Run command text once an interpreter is active again.
    ForthFunction(String),
}

/// The mathematical shape of one deferred call.
pub enum SystemCallModel {
    SwitchGraphics(VgaModeSwitch),
    ForthFunction(Seq<char>),
}

impl View for SystemCall {
    type V = SystemCallModel;

    open spec fn view(&self) -> SystemCallModel {
        match self {
            SystemCall::SwitchGraphics(m) => SystemCallModel::SwitchGraphics(*m),
            SystemCall::ForthFunction(s) => SystemCallModel::ForthFunction(s@),
        }
    }
}

impl DeepView for SystemCall {
    type V = SystemCallModel;

    open spec fn deep_view(&self) -> SystemCallModel {
        self.view()
    }
}

impl Clone for SystemCall {
    fn clone(&self) -> (r: Self)
        ensures
            r@ == self@,
    {
        match self {
            SystemCall::SwitchGraphics(m) => SystemCall::SwitchGraphics(*m),
            SystemCall::ForthFunction(s) => SystemCall::ForthFunction(s.clone()),
        }
    }
}

/// The contract every application implements: an optional argument check,
/// an update entry point invoked once per host tick, and an optional
/// cleanup hook once control returns to the host.
pub trait LittleManApp {
    fn start(&mut self, args: &mut Stack) -> Result<(), StartError>;

    fn update(&mut self, handle: &mut OsHandle);

    fn shutdown(&mut self);
}

/// The capability broker: what a running application is handed in place of
/// the machine.
pub struct OsHandle {
    /// The interpreter, present only while it is lent to this broker for
    /// the dynamic extent of one invocation.
    pub machine: Option<ForthMachine>,
    /// The run/quit flag, initially running.
    pub control_flow: ControlFlow,
    /// The display-mode handle: exactly one of text or bitmap.
    pub graphics: GraphicsHandle,
    /// The deferred calls, oldest first.
    pub calls: Vec<SystemCall>,
    /// The keyboard event source.
    pub keyboard: Keyboard,
    /// The filesystem.
    pub files: FileSystem,
}

impl OsHandle {
    /// The deferred-call queue, in submission order.
    pub open spec fn pending(&self) -> Seq<SystemCallModel> {
        self.calls.deep_view()
    }

    /// Whether the run/quit flag still says running.
    pub open spec fn live(&self) -> bool {
        self.control_flow is Running
    }

    /// Whether an interpreter is present and at rest, so commands can run
    /// synchronously.
    pub open spec fn machine_active(&self) -> bool {
        self.machine matches Some(m) && m.idle()
    }

    /// A broker with no interpreter: commands are deferred.
    pub fn new(formatter: GraphicsHandle) -> (r: Self)
        ensures
            r.machine is None,
            r.live(),
            r.graphics == formatter,
            r.pending() == Seq::<SystemCallModel>::empty(),
            r.keyboard@ == Seq::<Key>::empty(),
    {
        let calls: Vec<SystemCall> = Vec::new();
        let r = OsHandle {
            machine: None,
            control_flow: ControlFlow::Running,
            graphics: formatter,
            calls,
            keyboard: Keyboard::new(),
            files: FileSystem::new(),
        };
        proof {
            assert(r.calls.deep_view() =~= Seq::<SystemCallModel>::empty());
        }
        r
    }

    /// A broker holding the interpreter itself, lent for one invocation.
    pub fn new_complicated(formatter: GraphicsHandle, machine: ForthMachine) -> (r: Self)
        ensures
            r.machine == Some(machine),
            r.live(),
            r.graphics == formatter,
            r.pending() == Seq::<SystemCallModel>::empty(),
            r.keyboard@ == Seq::<Key>::empty(),
    {
        let calls: Vec<SystemCall> = Vec::new();
        let r = OsHandle {
            machine: Some(machine),
            control_flow: ControlFlow::Running,
            graphics: formatter,
            calls,
            keyboard: Keyboard::new(),
            files: FileSystem::new(),
        };
        proof {
            assert(r.calls.deep_view() =~= Seq::<SystemCallModel>::empty());
        }
        r
    }

    /// Hands the lent interpreter back to the host.
    pub fn take_machine(&mut self) -> (r: Option<ForthMachine>)
        ensures
            r == old(self).machine,
            final(self).machine is None,
            final(self).control_flow == old(self).control_flow,
            final(self).graphics == old(self).graphics,
            final(self).calls == old(self).calls,
            final(self).keyboard == old(self).keyboard,
            final(self).files == old(self).files,
    {
        self.machine.take()
    }

    /// Whether the application should keep running.
    pub fn running(&self) -> (r: bool)
        ensures
            r == self.live(),
    {
        match self.control_flow {
            ControlFlow::Running => true,
            ControlFlow::Quit => false,
        }
    }

    /// Signals completion to the host loop; observable via `running`.
    pub fn call_exit(&mut self)
        ensures
            !final(self).live(),
            final(self).machine == old(self).machine,
            final(self).graphics == old(self).graphics,
            final(self).calls == old(self).calls,
            final(self).keyboard == old(self).keyboard,
            final(self).files == old(self).files,
    {
        self.control_flow = ControlFlow::Quit;
    }

    /// Runs command text against the interpreter if one is present and at
    /// rest, and returns `true`; otherwise queues the text as a deferred
    /// call and returns `false`.
    pub fn execute(&mut self, command: &str) -> (r: bool)
        ensures
            r == old(self).machine_active(),
            !old(self).machine_active() ==> {
                &&& final(self).pending() == old(self).pending().push(
                    SystemCallModel::ForthFunction(command@),
                )
                &&& final(self).machine == old(self).machine
                &&& final(self).control_flow == old(self).control_flow
                &&& final(self).graphics == old(self).graphics
                &&& final(self).keyboard == old(self).keyboard
                &&& final(self).files == old(self).files
            },
            old(self).machine_active() ==> {
                &&& final(self).machine matches Some(m) && m.idle() && m.queue_model() == Seq::<
                    Seq<char>,
                >::empty() && m.dict() == old(self).machine->0.dict()
                &&& final(self).calls == old(self).calls
                &&& final(self).control_flow == old(self).control_flow
                &&& final(self).graphics == old(self).graphics
                &&& final(self).keyboard == old(self).keyboard
                &&& final(self).files == old(self).files
                &&& ({
                    // running synchronously means the machine has done the
                    // command's work: a command of simple tokens leaves
                    // exactly its combined stack effect
                    let m0 = old(self).machine->0;
                    let toks = spec_tokens(command@);
                    let simple = forall|i: int|
                        0 <= i < toks.len() ==> simple_token(m0.dict(), toks[i]);
                    (m0.queue_model().len() == 0 && toks.len() + 3 <= STEP_LIMIT && simple)
                        ==> final(self).machine->0.stack@ == fragment_effect(
                        m0.dict(),
                        toks,
                        m0.stack@,
                    )
                })
            },
    {
        let run_now = match &self.machine {
            Some(m) => m.is_idle(),
            None => false,
        };
        if run_now {
            let mut m = self.machine.take().unwrap();
            m.add_instructions(command);
            proof {
                if m.queue_model().len() == 1 {
                    assert(crate::forth::sole_fragment_tokens(m.queue_model()) == spec_tokens(
                        command@,
                    ));
                }
            }
            m.run_to_end();
            self.machine = Some(m);
            true
        } else {
            self.calls.push(SystemCall::ForthFunction(String::from_str(command)));
            proof {
                assert(self.calls.deep_view() =~= old(self).calls.deep_view().push(
                    SystemCallModel::ForthFunction(command@),
                ));
            }
            false
        }
    }

    /// Queues a display-mode switch for the host to apply at its next
    /// checkpoint between application ticks; nothing switches now.
    pub fn request_display_switch(&mut self, mode: VgaModeSwitch)
        ensures
            final(self).pending() == old(self).pending().push(
                SystemCallModel::SwitchGraphics(mode),
            ),
            final(self).machine == old(self).machine,
            final(self).control_flow == old(self).control_flow,
            final(self).graphics == old(self).graphics,
            final(self).keyboard == old(self).keyboard,
            final(self).files == old(self).files,
    {
        self.calls.push(SystemCall::SwitchGraphics(mode));
        proof {
            assert(self.calls.deep_view() =~= old(self).calls.deep_view().push(
                SystemCallModel::SwitchGraphics(mode),
            ));
        }
    }

    /// Removes and returns every deferred call, in submission order,
    /// leaving the queue empty: a second drain with no enqueue in between
    /// yields nothing.
    pub fn flush_calls(&mut self) -> (r: Vec<SystemCall>)
        ensures
            r.deep_view() == old(self).pending(),
            final(self).pending() == Seq::<SystemCallModel>::empty(),
            final(self).machine == old(self).machine,
            final(self).control_flow == old(self).control_flow,
            final(self).graphics == old(self).graphics,
            final(self).keyboard == old(self).keyboard,
            final(self).files == old(self).files,
    {
        let r = self.calls.split_off(0);
        proof {
            assert(r.deep_view() =~= old(self).calls.deep_view());
            assert(self.calls.deep_view() =~= Seq::<SystemCallModel>::empty());
        }
        r
    }

    /// Succeeds exactly when the broker's current mode is text mode; the
    /// one gate that keeps text operations away from the bitmap hardware.
    pub fn text_display(&self) -> (r: Result<(), VideoModeError>)
        ensures
            r is Err <==> !self.graphics.is_text_mode(),
            r is Err ==> r == Err::<(), VideoModeError>(VideoModeError::GraphicsModeActive),
    {
        match &self.graphics.formatter {
            crate::display::GraphicsHandleType::TextMode(_) => Ok(()),
            crate::display::GraphicsHandleType::GraphicsMode(_) => Err(
                VideoModeError::GraphicsModeActive,
            ),
        }
    }

    /// The live text writer, granted only while the broker's mode is text
    /// mode; in bitmap mode every text operation is refused instead.
    pub fn text_mode_formatter(&mut self) -> (r: Result<&mut TextWriter, VideoModeError>)
        ensures
            r is Ok <==> old(self).graphics.is_text_mode(),
            !old(self).graphics.is_text_mode() ==> r->Err_0 == VideoModeError::GraphicsModeActive
                && *final(self) == *old(self),
            old(self).graphics.is_text_mode() ==> {
                &&& final(self).graphics.is_text_mode()
                &&& final(self).graphics.formatter == crate::display::GraphicsHandleType::TextMode(
                    *final(r->Ok_0),
                )
                &&& final(self).machine == old(self).machine
                &&& final(self).control_flow == old(self).control_flow
                &&& final(self).calls == old(self).calls
                &&& final(self).keyboard == old(self).keyboard
                &&& final(self).files == old(self).files
            },
    {
        match &mut self.graphics.formatter {
            crate::display::GraphicsHandleType::TextMode(w) => Ok(w),
            crate::display::GraphicsHandleType::GraphicsMode(_) => Err(
                VideoModeError::GraphicsModeActive,
            ),
        }
    }

    /// The keyboard event source.
    pub fn keyboard(&self) -> (r: &Keyboard)
        ensures
            *r == self.keyboard,
    {
        &self.keyboard
    }

    /// The keyboard event source, for blocking and non-blocking reads.
    pub fn keyboard_mut(&mut self) -> (r: &mut Keyboard)
        ensures
            *r == old(self).keyboard,
            final(self).keyboard == *final(r),
            final(self).machine == old(self).machine,
            final(self).control_flow == old(self).control_flow,
            final(self).graphics == old(self).graphics,
            final(self).calls == old(self).calls,
            final(self).files == old(self).files,
    {
        &mut self.keyboard
    }
}

} // verus!
