//! Checks on what the operator passed, and small helpers for showing what
//! an operation does.

use vstd::prelude::*;
use crate::errors::{ErrorView, ManagerError, ManagerResult, unit_view};
use crate::paths::{join_path, joined_path};
use crate::text::opt_text;
use crate::process::{
    Action, ActionView, command, CommandLine, CommandOutcome, CommandOutcomeView, Event, EventView,
};
use crate::errors::{IoErrorKind, IoFailure, IoFailureView};
use crate::text::str_eq;

verus! {

/// Indentation that prefixes the output of a sub-command.
pub fn format_subcommand_tab() -> (tab: &'static str)
    ensures
        tab@ == "        "@,
{
    "        "
}

/// Whether a required argument was given: it is there and not empty.
pub open spec fn is_given(value: Option<&String>) -> bool {
    match value {
        Some(text) => text@.len() > 0,
        None => false,
    }
}

/// Checks that every required argument was given. The first one that is
/// absent or empty is reported by its name.
pub fn validate_required_args(args: &[(&str, Option<&String>)]) -> (r: ManagerResult<()>)
    ensures
        r is Ok <==> forall|i: int| 0 <= i < args@.len() ==> is_given(#[trigger] args@[i].1),
        r matches Err(e) ==> exists|i: int|
            0 <= i < args@.len() && !is_given(#[trigger] args@[i].1) && e@
                == ErrorView::MissingParameter(args@[i].0@) && forall|j: int|
                0 <= j < i ==> is_given(#[trigger] args@[j].1),
{
    let mut i: usize = 0;
    while i < args.len()
        invariant
            i <= args@.len(),
            forall|j: int| 0 <= j < i ==> is_given(#[trigger] args@[j].1),
        decreases args@.len() - i,
    {
        let name: &str = args[i].0;
        let given = match args[i].1 {
            Some(text) => !text.as_str().is_empty(),
            None => false,
        };
        if !given {
            return Err(ManagerError::MissingParameter(String::from_str(name)));
        }
        i += 1;
    }
    Ok(())
}

/// Whether `backend` names a storage backend that is supported.
pub open spec fn is_backend(backend: Seq<char>) -> bool {
    backend == "gs"@ || backend == "hetzner"@ || backend == "local"@
}

/// Checks that `backend` names a storage backend that is supported.
pub fn validate_backend(backend: &str) -> (r: ManagerResult<()>)
    ensures
        unit_view(r) == if is_backend(backend@) {
            Ok::<(), ErrorView>(())
        } else {
            Err::<(), ErrorView>(ErrorView::UnsupportedBackend(backend@))
        },
{
    if str_eq(backend, "gs") || str_eq(backend, "hetzner") || str_eq(backend, "local") {
        Ok(())
    } else {
        Err(ManagerError::UnsupportedBackend(String::from_str(backend)))
    }
}

/// Where downloaded packages are kept: the folder that was configured, or
/// else `.release/debian/cache` under the home directory, or under `/tmp`
/// where no home directory is known.
pub open spec fn cache_folder_of(configured: Option<Seq<char>>, home: Option<Seq<char>>) -> Seq<
    char,
> {
    match configured {
        Some(folder) => folder,
        None => joined_path(
            match home {
                Some(dir) => dir,
                None => "/tmp"@,
            },
            ".release/debian/cache"@,
        ),
    }
}

/// Where downloaded packages are kept. `configured` is the folder that was
/// set for it, and `home` the home directory, each where known.
pub fn get_debian_cache_folder(configured: Option<&str>, home: Option<&str>) -> (folder: String)
    ensures
        folder@ == cache_folder_of(opt_text(configured), opt_text(home)),
{
    match configured {
        Some(folder) => String::from_str(folder),
        None => {
            let base: &str = match home {
                Some(dir) => dir,
                None => "/tmp",
            };
            join_path(base, ".release/debian/cache")
        },
    }
}

/// The lines that announce an operation: its title, then one line for each
/// parameter, with an empty line before and after.
pub open spec fn operation_lines(title: Seq<char>, params: Seq<(Seq<char>, Seq<char>)>) -> Seq<
    Seq<char>,
> {
    seq![Seq::<char>::empty(), " \u{2139}\u{fe0f}  "@ + title + " with following parameters:"@]
        + Seq::new(params.len(), |i: int| " - "@ + params[i].0 + ": "@ + params[i].1)
        + seq![Seq::<char>::empty()]
}

/// The names and values of parameters, taken by their views.
pub open spec fn params_view(params: Seq<(&str, &str)>) -> Seq<(Seq<char>, Seq<char>)> {
    Seq::new(params.len(), |i: int| (params[i].0@, params[i].1@))
}

/// The lines that announce an operation to the operator.
pub fn operation_info(title: &str, params: &[(&str, &str)]) -> (shown: Vec<String>)
    ensures
        shown.deep_view() == operation_lines(title@, params_view(params@)),
{
    let mut shown: Vec<String> = Vec::new();
    shown.push(String::new());
    let mut head = String::from_str(" \u{2139}\u{fe0f}  ");
    head.append(title);
    head.append(" with following parameters:");
    shown.push(head);
    let ghost start = shown.deep_view();
    assert(start =~= seq![Seq::<char>::empty(), " \u{2139}\u{fe0f}  "@ + title@
        + " with following parameters:"@]);
    let ghost all = params_view(params@);
    let mut i: usize = 0;
    while i < params.len()
        invariant
            i <= params@.len(),
            all == params_view(params@),
            shown.deep_view() == start + Seq::new(
                i as nat,
                |k: int| " - "@ + all[k].0 + ": "@ + all[k].1,
            ),
        decreases params@.len() - i,
    {
        let mut row = String::from_str(" - ");
        row.append(params[i].0);
        row.append(": ");
        row.append(params[i].1);
        let ghost before = shown.deep_view();
        shown.push(row);
        assert(shown.deep_view() =~= before.push(row@));
        i += 1;
    }
    shown.push(String::new());
    shown
}

/// How the search for a program that an operation needs goes on: the search
/// is started, and its outcome tells whether the program is installed.
pub open spec fn check_app_step(app: Seq<char>, event: EventView) -> ActionView {
    match event {
        EventView::Begin => ActionView::Run(command("which"@).arg(app)),
        EventView::Command(CommandOutcomeView::NotStarted { reason }) => ActionView::Fail(
            ErrorView::IoError(IoFailureView { kind: IoErrorKind::Other, message: reason }),
        ),
        EventView::Command(CommandOutcomeView::Exited { success, stdout, stderr }) => if success {
            ActionView::Complete(None)
        } else {
            ActionView::Fail(ErrorView::CommandFailed(app + " not found"@))
        },
        _ => ActionView::Fail(ErrorView::ValidationError("unexpected event"@)),
    }
}

/// Checks that the program `app` is installed. The first call takes
/// [`Event::Begin`]; the next one takes the outcome of the command that the
/// first asked for.
pub fn check_app(app: &str, event: &Event) -> (action: Action)
    ensures
        action@ == check_app_step(app@, event@),
{
    match event {
        Event::Begin => Action::Run(CommandLine::new("which").arg(app)),
        Event::Command(CommandOutcome::NotStarted { reason }) => Action::Fail(
            ManagerError::IoError(IoFailure { kind: IoErrorKind::Other, message: reason.clone() }),
        ),
        Event::Command(CommandOutcome::Exited { success, stdout, stderr }) => if *success {
            Action::Complete(None)
        } else {
            let mut detail = String::from_str(app);
            detail.append(" not found");
            Action::Fail(ManagerError::CommandFailed(detail))
        },
        _ => Action::Fail(ManagerError::validation("unexpected event")),
    }
}

/// The error of the first of `args` that has no value or an empty one, if
/// there is one. Each argument is a name with its value.
pub open spec fn first_missing(args: Seq<(Seq<char>, Option<Seq<char>>)>) -> Option<ErrorView>
    decreases args.len(),
{
    if args.len() == 0 {
        None
    } else {
        match first_missing(args.drop_last()) {
            Some(e) => Some(e),
            None => match args.last().1 {
                Some(value) => if value.len() > 0 {
                    None
                } else {
                    Some(ErrorView::MissingParameter(args.last().0))
                },
                None => Some(ErrorView::MissingParameter(args.last().0)),
            },
        }
    }
}

/// The error of an argument called `name` that has no value or an empty
/// one.
pub fn require_arg(name: &str, value: Option<&str>) -> (e: Option<ManagerError>)
    ensures
        crate::process::opt_error_view(e) == first_missing(seq![(name@, opt_text(value))]),
{
    let ghost args = seq![(name@, opt_text(value))];
    assert(first_missing(args.drop_last()) is None);
    let given = match value {
        Some(text) => !text.is_empty(),
        None => false,
    };
    if given {
        None
    } else {
        Some(ManagerError::MissingParameter(String::from_str(name)))
    }
}

/// Checking a list of arguments of which the last is checked apart gives
/// the error of the first ones, or else that of the last.
pub proof fn lemma_first_missing_push(
    args: Seq<(Seq<char>, Option<Seq<char>>)>,
    name: Seq<char>,
    value: Option<Seq<char>>,
)
    ensures
        first_missing(args.push((name, value))) == match first_missing(args) {
            Some(e) => Some(e),
            None => first_missing(seq![(name, value)]),
        },
{
    let all = args.push((name, value));
    assert(all.drop_last() =~= args);
    let one = seq![(name, value)];
    assert(first_missing(one.drop_last()) is None);
}

} // verus!
