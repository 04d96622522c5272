//! The installed applications and the one dispatch point the host drives
//! them through: every application is constructed fresh per invocation and
//! run through its declared shape, script-style with the interpreter or
//! polling-style with a broker.

pub mod cls;
pub mod foreditor;
pub mod forrunner;
pub mod help;

use vstd::prelude::*;

use crate::app::{OsHandle, ProgramError};
use crate::display::GraphicsHandle;
use crate::files::InstalledApp;
use crate::forth::ForthMachine;

use self::cls::ClearScreenApp;
use self::foreditor::ForEditor;
use self::forrunner::ForRunner;
use self::help::{HelpApp, Language};

verus! {

/// A running application of either shape.
pub enum Application {
    ForRunner(ForRunner),
    ClearScreen(ClearScreenApp),
    Help(HelpApp),
    ForEditor(ForEditor),
}

/// Whether `a` is the fresh instance the constructor `k` produces.
pub open spec fn fresh_instance(k: InstalledApp, a: Application) -> bool {
    match k {
        InstalledApp::ForRunner => a is ForRunner,
        InstalledApp::ClearScreen => a is ClearScreen,
        InstalledApp::Help => a matches Application::Help(h) && h.0 is Swedish,
        InstalledApp::ForEditor => a matches Application::ForEditor(e) && e.wf() && e.work@
            == Seq::<char>::empty() && e.path is None && e.pending_load is None,
    }
}

/// Constructs a fresh application instance; applications keep no state
/// across separate launches.
pub fn instantiate(k: InstalledApp) -> (r: Application)
    ensures
        fresh_instance(k, r),
{
    match k {
        InstalledApp::ForRunner => Application::ForRunner(ForRunner),
        InstalledApp::ClearScreen => Application::ClearScreen(ClearScreenApp),
        InstalledApp::Help => Application::Help(HelpApp(Language::Swedish)),
        InstalledApp::ForEditor => Application::ForEditor(ForEditor::new()),
    }
}

/// Builds the broker for one polling invocation: the machine lends its
/// display, keyboard and filesystem for the dynamic extent of the call.
fn lend(machine: &mut ForthMachine) -> (h: OsHandle)
    ensures
        h.machine is None,
        h.live(),
        h.pending() == Seq::<crate::app::SystemCallModel>::empty(),
        h.graphics == old(machine).display,
        h.keyboard == old(machine).keyboard,
        h.files == old(machine).files,
        final(machine).stack == old(machine).stack,
        final(machine).words == old(machine).words,
        final(machine).queue == old(machine).queue,
        final(machine).frames == old(machine).frames,
        final(machine).budget == old(machine).budget,
{
    let mut h = OsHandle::new(GraphicsHandle::text_mode());
    core::mem::swap(&mut h.graphics, &mut machine.display);
    core::mem::swap(&mut h.keyboard, &mut machine.keyboard);
    core::mem::swap(&mut h.files, &mut machine.files);
    h
}

/// Takes the lent capabilities back and replays the deferred calls: mode
/// switches are applied now, at the checkpoint between invocations, and
/// deferred commands are queued to run before anything older, in
/// submission order.
fn restore(machine: &mut ForthMachine, handle: &mut OsHandle)
    ensures
        final(machine).stack == old(machine).stack,
        final(machine).dict() == old(machine).dict(),
        final(machine).queue_model() == old(machine).queue_model(),
        final(machine).keyboard == old(handle).keyboard,
        final(machine).files == old(handle).files,
        final(machine).budget == old(machine).budget,
        final(machine).frames@.len() >= old(machine).frames@.len(),
        final(machine).frames@.take(old(machine).frames@.len() as int) == old(machine).frames@,
        old(handle).pending() == Seq::<crate::app::SystemCallModel>::empty() ==> final(machine).display == old(handle).graphics,
{
    core::mem::swap(&mut machine.display, &mut handle.graphics);
    core::mem::swap(&mut machine.keyboard, &mut handle.keyboard);
    core::mem::swap(&mut machine.files, &mut handle.files);
    let calls = handle.flush_calls();
    proof {
        assert(calls@.len() == calls.deep_view().len());
    }
    let mut i: usize = 0;
    while i < calls.len()
        invariant
            machine.stack == old(machine).stack,
            machine.dict() == old(machine).dict(),
            machine.queue_model() == old(machine).queue_model(),
            machine.keyboard == old(handle).keyboard,
            machine.files == old(handle).files,
            machine.budget == old(machine).budget,
            machine.frames == old(machine).frames,
            calls.deep_view() == old(handle).pending(),
            old(handle).pending().len() == 0 ==> machine.display == old(handle).graphics,
        decreases calls.len() - i,
    {
        proof {
            assert(calls@.len() == calls.deep_view().len());
        }
        if let crate::app::SystemCall::SwitchGraphics(m) = &calls[i] {
            let mut tmp = GraphicsHandle::text_mode();
            core::mem::swap(&mut tmp, &mut machine.display);
            machine.display = tmp.switch(*m);
        }
        i += 1;
    }
    let mut j: usize = calls.len();
    while j > 0
        invariant
            j <= calls.len(),
            machine.stack == old(machine).stack,
            machine.dict() == old(machine).dict(),
            machine.queue_model() == old(machine).queue_model(),
            machine.keyboard == old(handle).keyboard,
            machine.files == old(handle).files,
            machine.budget == old(machine).budget,
            machine.frames@.len() >= old(machine).frames@.len(),
            machine.frames@.take(old(machine).frames@.len() as int) == old(machine).frames@,
            calls.deep_view() == old(handle).pending(),
            old(handle).pending().len() == 0 ==> machine.display == old(handle).graphics,
        decreases j,
    {
        proof {
            assert(calls@.len() == calls.deep_view().len());
        }
        j = j - 1;
        if let crate::app::SystemCall::ForthFunction(text) = &calls[j] {
            let ghost before = machine.frames@;
            machine.push_text_frame(text.as_str());
            proof {
                assert(machine.frames@.take(old(machine).frames@.len() as int) =~= before.take(
                    old(machine).frames@.len() as int,
                ));
            }
        }
    }
    proof {
        assert(machine.frames@.take(old(machine).frames@.len() as int) == old(machine).frames@);
    }
}

impl Application {
    /// Runs the application to completion through its declared shape: the
    /// script runner drives the interpreter directly; a polling
    /// application is handed the broker and ticked until it asks to exit
    /// or waits on an empty keyboard.
    pub fn run(&mut self, machine: &mut ForthMachine) -> (r: Result<(), ProgramError>)
        ensures
            final(machine).dict() == old(machine).dict(),
            final(machine).budget <= old(machine).budget,
            final(machine).frames@.len() >= old(machine).frames@.len(),
            final(machine).frames@.take(old(machine).frames@.len() as int) == old(machine).frames@,
            !((*old(self)) is ForRunner) ==> r is Ok,
            (*old(self)) is ClearScreen ==> final(machine).stack == old(machine).stack,
            (*old(self)) is ForRunner ==> final(machine).frames@ == old(machine).frames@
                && crate::apps::forrunner::runner_step(
                old(machine).files.catalog(),
                old(machine).dict(),
                old(machine).budget,
                old(machine).stack@,
                old(machine).queue_model(),
                r is Ok,
                final(machine).stack@,
                final(machine).queue_model(),
            ),
            (*old(self)) matches Application::Help(h) ==> (old(machine).display.is_text_mode()
                ==> {
                // the help text for the language the stack argument picks
                // is written to the text display
                let s = old(machine).stack@;
                let arg_text = s.len() > 0 && s.last() is Text;
                let lang = if arg_text && s.last()->Text_0 == "eng"@ {
                    Language::English
                } else if arg_text && s.last()->Text_0 == "swe"@ {
                    Language::Swedish
                } else {
                    h.0
                };
                &&& final(machine).display.is_text_mode()
                &&& final(machine).display.text_writer().written@ == old(
                    machine,
                ).display.text_writer().written@ + seq!['\n'] + (if lang is Swedish {
                    "Detta operativsystem kommer med olika demon och verktyg. Skriv 'dir' for en lista. For english help, write 'help eng'"@
                } else {
                    "This operating system comes with demos and tools. Write 'dir' for a list."@
                })
                &&& final(machine).stack@ == (if arg_text {
                    s.drop_last()
                } else {
                    s
                })
            }),
            (*old(self)) is ForEditor ==> final(machine).stack@ == (if old(machine).stack@.len()
                > 0 && old(machine).stack@.last() is Text {
                old(machine).stack@.drop_last()
            } else {
                old(machine).stack@
            }),
            ((*old(self)) is ClearScreen && old(machine).display.is_text_mode()) ==> {
                &&& final(machine).display.is_text_mode()
                &&& final(machine).display.text_writer().written@ == Seq::<char>::empty()
                &&& final(machine).display.text_writer().colors.background
                    == crate::display::VgaColor::Black
                &&& final(machine).stack == old(machine).stack
            },
        decreases machine.budget, 1int,
    {
        proof {
            assert(old(machine).frames@.take(old(machine).frames@.len() as int) =~= old(
                machine,
            ).frames@);
        }
        match self {
            Application::ForRunner(a) => a.run(machine),
            Application::ClearScreen(a) => {
                let mut handle = lend(machine);
                while handle.running()
                    invariant
                        machine.dict() == old(machine).dict(),
                        machine.stack == old(machine).stack,
                        machine.frames == old(machine).frames,
                        machine.budget == old(machine).budget,
                        handle.pending() == Seq::<crate::app::SystemCallModel>::empty(),
                        old(machine).display.is_text_mode() ==> handle.graphics.is_text_mode(),
                        (!handle.live() && old(machine).display.is_text_mode()) ==> {
                            &&& handle.graphics.text_writer().written@ == Seq::<char>::empty()
                            &&& handle.graphics.text_writer().colors.background
                                == crate::display::VgaColor::Black
                        },
                    decreases (if handle.live() {
                        1int
                    } else {
                        0int
                    }),
                {
                    a.tick(&mut handle);
                }
                restore(machine, &mut handle);
                Ok(())
            },
            Application::Help(a) => {
                let _ = a.pick_language(&mut machine.stack);
                let mut handle = lend(machine);
                while handle.running()
                    invariant
                        machine.dict() == old(machine).dict(),
                        machine.frames == old(machine).frames,
                        machine.budget == old(machine).budget,
                        machine.stack@ == (if old(machine).stack@.len() > 0 && old(
                            machine,
                        ).stack@.last() is Text {
                            old(machine).stack@.drop_last()
                        } else {
                            old(machine).stack@
                        }),
                        handle.pending() == Seq::<crate::app::SystemCallModel>::empty(),
                        old(machine).display.is_text_mode() ==> handle.graphics.is_text_mode(),
                        a.0 == ({
                            let s = old(machine).stack@;
                            let arg_text = s.len() > 0 && s.last() is Text;
                            if arg_text && s.last()->Text_0 == "eng"@ {
                                Language::English
                            } else if arg_text && s.last()->Text_0 == "swe"@ {
                                Language::Swedish
                            } else {
                                old(self)->Help_0.0
                            }
                        }),
                        (handle.live() && old(machine).display.is_text_mode())
                            ==> handle.graphics.text_writer() == old(machine).display.text_writer(),
                        (!handle.live() && old(machine).display.is_text_mode()) ==> {
                            &&& handle.graphics.text_writer().written@ == old(
                                machine,
                            ).display.text_writer().written@ + seq!['\n'] + (if a.0 is Swedish {
                                "Detta operativsystem kommer med olika demon och verktyg. Skriv 'dir' for en lista. For english help, write 'help eng'"@
                            } else {
                                "This operating system comes with demos and tools. Write 'dir' for a list."@
                            })
                        },
                    decreases (if handle.live() {
                        1int
                    } else {
                        0int
                    }),
                {
                    a.tick(&mut handle);
                }
                restore(machine, &mut handle);
                Ok(())
            },
            Application::ForEditor(a) => {
                a.read_arguments(&mut machine.stack);
                let mut handle = lend(machine);
                while handle.running()
                    invariant
                        machine.dict() == old(machine).dict(),
                        machine.stack@ == (if old(machine).stack@.len() > 0 && old(
                            machine,
                        ).stack@.last() is Text {
                            old(machine).stack@.drop_last()
                        } else {
                            old(machine).stack@
                        }),
                        machine.frames == old(machine).frames,
                        machine.budget == old(machine).budget,
                    decreases handle.keyboard@.len(),
                {
                    a.tick(&mut handle);
                    if handle.keyboard.len() == 0 {
                        break;
                    }
                }
                restore(machine, &mut handle);
                Ok(())
            },
        }
    }
}

} // verus!
