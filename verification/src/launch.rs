//! The launch pipeline: the path popped from the stack is cleaned, given
//! the application extension, and looked up first relative to the active
//! directory and then under the system binaries directory; the first lookup
//! that resolves wins.

use vstd::prelude::*;
use vstd::string::*;

use crate::apps::forrunner::runner_step;
use crate::apps::help::Language;
use crate::apps::{fresh_instance, instantiate, Application};
use crate::files::{ContentModel, FileSystemError, InstalledApp};
use crate::forth::ForthMachine;
use crate::path::{spec_clean, Path};

verus! {

/// The candidate file name: the given path with the application extension.
pub open spec fn candidate(p: Seq<char>) -> Seq<char> {
    p + seq!['.'] + "run"@
}

/// The catalog key of the first search step: the candidate relative to the
/// active directory.
pub open spec fn relative_key(active: Seq<char>, p: Seq<char>) -> Seq<char> {
    spec_clean(active + seq!['/'] + candidate(p))
}

/// The catalog key of the second search step: the candidate under the
/// system binaries directory.
pub open spec fn bin_key(p: Seq<char>) -> Seq<char> {
    spec_clean("bin"@ + seq!['/'] + candidate(p))
}

/// Pops the path argument and resolves it to a fresh application instance,
/// following the two-step search order.
pub fn get_app(machine: &mut ForthMachine) -> (r: Result<Application, FileSystemError>)
    ensures
        final(machine).dict() == old(machine).dict(),
        final(machine).queue_model() == old(machine).queue_model(),
        final(machine).files == old(machine).files,
        final(machine).display == old(machine).display,
        final(machine).keyboard == old(machine).keyboard,
        final(machine).frames == old(machine).frames,
        final(machine).budget == old(machine).budget,
        ({
            let s = old(machine).stack@;
            if s.len() == 0 || !(s.last() is Text) {
                &&& r == Err::<Application, FileSystemError>(FileSystemError::EmptyPath)
                &&& final(machine).stack@ == s
            } else {
                let p = s.last()->Text_0;
                let cat = old(machine).files.catalog();
                let rk = relative_key(old(machine).files.active_dir(), p);
                let bk = bin_key(p);
                let step = if cat.contains_key(rk) {
                    Some(cat[rk])
                } else if cat.contains_key(bk) {
                    Some(cat[bk])
                } else {
                    Option::<ContentModel>::None
                };
                &&& final(machine).stack@ == s.drop_last()
                &&& match step {
                    Some(ContentModel::App(k)) => r is Ok && fresh_instance(k, r->Ok_0),
                    Some(ContentModel::Data(_)) => r == Err::<Application, FileSystemError>(
                        FileSystemError::NotExecutable,
                    ),
                    None => r == Err::<Application, FileSystemError>(
                        FileSystemError::FileNotFound,
                    ),
                }
            }
        }),
{
    let popped = machine.stack.try_pop::<String>();
    let path_text = match popped {
        Some(p) => p,
        None => {
            return Err(FileSystemError::EmptyPath);
        },
    };
    let finalized = Path::from(path_text.as_str()).add_extension("run");
    let relative = machine.files.active_directory().append(&finalized);
    if machine.files.contains(&relative) {
        match machine.files.app_at(&relative) {
            Ok(k) => Ok(instantiate(k)),
            Err(e) => Err(e),
        }
    } else {
        let bin = Path::from("bin").append(&finalized);
        match machine.files.app_at(&bin) {
            Ok(k) => Ok(instantiate(k)),
            Err(e) => Err(e),
        }
    }
}

/// The behavior of the `run` word: resolves the path on the stack and runs
/// the application it names; a failure is reported to the display and
/// control returns to the interpreter loop.
pub fn run(machine: &mut ForthMachine)
    ensures
        final(machine).dict() == old(machine).dict(),
        final(machine).budget <= old(machine).budget,
        final(machine).frames@.len() >= old(machine).frames@.len(),
        final(machine).frames@.take(old(machine).frames@.len() as int) == old(machine).frames@,
        (old(machine).stack@.len() == 0 || !(old(machine).stack@.last() is Text)) ==> {
            &&& final(machine).stack@ == old(machine).stack@
            &&& final(machine).queue_model() == old(machine).queue_model()
            &&& old(machine).display.is_text_mode() ==> final(machine).display.is_text_mode()
                && final(machine).display.text_writer().written@ == old(machine).display.text_writer().written@ + "Run: "@ + "empty path"@
        },
        ({
            // the outcome of the two-step resolution, and what running the
            // resolved application left behind
            let s = old(machine).stack@;
            if s.len() > 0 && s.last() is Text {
                let p = s.last()->Text_0;
                let cat = old(machine).files.catalog();
                let rk = relative_key(old(machine).files.active_dir(), p);
                let bk = bin_key(p);
                let step = if cat.contains_key(rk) {
                    Some(cat[rk])
                } else if cat.contains_key(bk) {
                    Some(cat[bk])
                } else {
                    Option::<ContentModel>::None
                };
                match step {
                    None => {
                        &&& final(machine).stack@ == s.drop_last()
                        &&& final(machine).queue_model() == old(machine).queue_model()
                        &&& (old(machine).display.is_text_mode() ==> final(machine).display.is_text_mode() && final(machine).display.text_writer().written@
                            == old(machine).display.text_writer().written@ + "Run: "@
                            + "file not found"@)
                    },
                    Some(ContentModel::Data(_)) => {
                        &&& final(machine).stack@ == s.drop_last()
                        &&& final(machine).queue_model() == old(machine).queue_model()
                        &&& (old(machine).display.is_text_mode() ==> final(machine).display.is_text_mode() && final(machine).display.text_writer().written@
                            == old(machine).display.text_writer().written@ + "Run: "@
                            + "not executable"@)
                    },
                    Some(ContentModel::App(k)) => match k {
                        InstalledApp::ClearScreen => {
                            &&& final(machine).stack@ == s.drop_last()
                            &&& (old(machine).display.is_text_mode() ==> final(machine).display.is_text_mode() && final(machine).display.text_writer().written@ == Seq::<char>::empty() && final(machine).display.text_writer().colors.background
                                == crate::display::VgaColor::Black)
                        },
                        InstalledApp::ForRunner => {
                            // the script runner ran, one way or the other
                            ||| runner_step(
                                cat,
                                old(machine).dict(),
                                old(machine).budget,
                                s.drop_last(),
                                old(machine).queue_model(),
                                true,
                                final(machine).stack@,
                                final(machine).queue_model(),
                            )
                            ||| runner_step(
                                cat,
                                old(machine).dict(),
                                old(machine).budget,
                                s.drop_last(),
                                old(machine).queue_model(),
                                false,
                                final(machine).stack@,
                                final(machine).queue_model(),
                            )
                        },
                        InstalledApp::Help => {
                            old(machine).display.is_text_mode() ==> {
                                let s2 = s.drop_last();
                                let arg_text = s2.len() > 0 && s2.last() is Text;
                                let lang = if arg_text && s2.last()->Text_0 == "eng"@ {
                                    Language::English
                                } else if arg_text && s2.last()->Text_0 == "swe"@ {
                                    Language::Swedish
                                } else {
                                    Language::Swedish
                                };
                                &&& final(machine).display.is_text_mode()
                                &&& final(machine).display.text_writer().written@ == old(machine).display.text_writer().written@ + seq!['\n'] + (if lang
                                    is Swedish {
                                    "Detta operativsystem kommer med olika demon och verktyg. Skriv 'dir' for en lista. For english help, write 'help eng'"@
                                } else {
                                    "This operating system comes with demos and tools. Write 'dir' for a list."@
                                })
                                &&& final(machine).stack@ == (if arg_text {
                                    s2.drop_last()
                                } else {
                                    s2
                                })
                            }
                        },
                        InstalledApp::ForEditor => true,
                    },
                }
            } else {
                true
            }
        }),
    decreases machine.budget, 2int,
{
    proof {
        assert(old(machine).frames@.take(old(machine).frames@.len() as int) =~= old(machine).frames@);
    }
    let mut app = match get_app(machine) {
        Ok(a) => a,
        Err(e) => {
            let mut msg = String::from_str("Run: ");
            msg.append(e.describe());
            let _ = machine.display.text_write_str(msg.as_str());
            return ;
        },
    };
    match app.run(machine) {
        Ok(_) => {},
        Err(e) => {
            let mut msg = String::from_str("App: ");
            let d = e.describe();
            msg.append(d.as_str());
            let _ = machine.display.text_write_str(msg.as_str());
        },
    }
}

} // verus!
