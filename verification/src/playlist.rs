//! The commands of the plain program, which plays in the foreground: what
//! each of them sets out to do with the library that was stored. A command
//! that needs songs fails on an empty library.

use vstd::prelude::*;
use vstd::string::StringExecFns;
use crate::cli::{CliStep, CliStepView};
use crate::models::{Song, SongView};
use crate::text::{append_decimal, debug_text_of, decimal, joined3, path_debug_text};

verus! {

/// The failure of a command that needs songs on an empty library.
pub open spec fn empty_library_failure() -> Seq<CliStepView> {
    seq![
        CliStepView::Fail {
            message: "Library is empty. Run 'music-cli refresh' or set a path."@,
        },
    ]
}

/// The line of the song at `index` in a list of `total` songs.
pub open spec fn list_line(index: nat, total: nat, title: Seq<char>) -> Seq<char> {
    "\n["@ + decimal(index + 1) + "/"@ + decimal(total) + "] "@ + title
}

/// The plan of `list`: a line for each song, in the order of the library.
pub open spec fn list_plan(songs: Seq<SongView>) -> Seq<CliStepView> {
    if songs.len() == 0 {
        empty_library_failure()
    } else {
        Seq::new(
            songs.len(),
            |i: int| CliStepView::Print { message: list_line(i as nat, songs.len(), songs[i].title) },
        )
    }
}

/// What `select` says of an index that the library does not have.
pub open spec fn invalid_index_text(index: usize, len: nat) -> Seq<char> {
    "Invalid index "@ + decimal(index as nat) + ". Library has "@ + decimal(len) + " songs (0-"@
        + decimal((len - 1) as nat) + ")."@
}

/// The plan of `select`: the song at `index` is played.
pub open spec fn select_plan(index: usize, songs: Seq<SongView>) -> Seq<CliStepView> {
    if songs.len() == 0 {
        empty_library_failure()
    } else if index >= songs.len() {
        seq![CliStepView::Fail { message: invalid_index_text(index, songs.len()) }]
    } else {
        seq![CliStepView::PlayInForeground { song: songs[index as int] }]
    }
}

/// The plan of `playlist`: the library is played from its first song.
pub open spec fn playlist_plan(songs: Seq<SongView>) -> Seq<CliStepView> {
    if songs.len() == 0 {
        empty_library_failure()
    } else {
        seq![CliStepView::PlayAllInForeground]
    }
}

/// The plan of `refresh`: the root of the library is scanned; without a
/// root the command fails.
pub open spec fn refresh_plan(root: Option<Seq<char>>) -> Seq<CliStepView> {
    match root {
        None => seq![
            CliStepView::Fail { message: "No music path set. Run 'music-cli path <DIR>' first."@ },
        ],
        Some(root) => seq![
            CliStepView::Print { message: "Scanning "@ + debug_text_of(root) + "..."@ },
            CliStepView::ScanAndStore { root },
        ],
    }
}

/// The plan of `path`, for the directory in its canonical form and whether
/// it is a directory: the directory becomes the root of the library, and
/// the library is refreshed from it at once.
pub open spec fn set_path_plan(path: Seq<char>, is_directory: bool) -> Seq<CliStepView> {
    if !is_directory {
        seq![CliStepView::Fail { message: "The path provided is not a valid directory."@ }]
    } else {
        seq![
            CliStepView::SaveRootPath { path },
            CliStepView::Print { message: "Music path updated to: "@ + debug_text_of(path) },
        ] + refresh_plan(Some(path))
    }
}

/// What `refresh` says once `count` songs were found.
pub open spec fn scan_done_text(count: nat) -> Seq<char> {
    "Refresh complete. Found "@ + decimal(count) + " songs."@
}

/// The warning of a file whose tags cannot be read, with the reason.
pub open spec fn metadata_warning_text(path: Seq<char>, reason: Seq<char>) -> Seq<char> {
    "Warning: Failed to read metadata for "@ + debug_text_of(path) + ": "@ + reason
}

fn empty_library() -> (plan: Vec<CliStep>)
    ensures
        plan.deep_view() == empty_library_failure(),
{
    let mut plan: Vec<CliStep> = Vec::new();
    plan.push(
        CliStep::Fail {
            message: String::from_str("Library is empty. Run 'music-cli refresh' or set a path."),
        },
    );
    proof {
        assert(plan.deep_view() =~= empty_library_failure());
    }
    plan
}

/// Plans `list`.
pub fn handle_list(songs: &Vec<Song>) -> (plan: Vec<CliStep>)
    ensures
        plan.deep_view() == list_plan(songs.deep_view()),
{
    let total = songs.len();
    if total == 0 {
        return empty_library();
    }
    let mut plan: Vec<CliStep> = Vec::new();
    let mut i: usize = 0;
    while i < total
        invariant
            i <= total,
            total == songs.len(),
            plan.len() == i,
            forall|k: int|
                0 <= k < i ==> (#[trigger] plan[k])@ == (CliStepView::Print {
                    message: list_line(k as nat, total as nat, songs[k]@.title),
                }),
        decreases total - i,
    {
        let mut line = String::from_str("\n[");
        append_decimal(&mut line, (i + 1) as u64);
        line.append("/");
        append_decimal(&mut line, total as u64);
        line.append("] ");
        line.append(songs[i].title.as_str());
        proof {
            assert(line@ =~= list_line(i as nat, total as nat, songs[i as int]@.title));
        }
        plan.push(CliStep::Print { message: line });
        i += 1;
    }
    proof {
        assert(plan.deep_view() =~= list_plan(songs.deep_view()));
    }
    plan
}

/// Plans `select`.
pub fn handle_select(index: usize, songs: &Vec<Song>) -> (plan: Vec<CliStep>)
    ensures
        plan.deep_view() == select_plan(index, songs.deep_view()),
{
    let len = songs.len();
    if len == 0 {
        return empty_library();
    }
    let mut plan: Vec<CliStep> = Vec::new();
    if index >= len {
        let mut message = String::from_str("Invalid index ");
        append_decimal(&mut message, index as u64);
        message.append(". Library has ");
        append_decimal(&mut message, len as u64);
        message.append(" songs (0-");
        append_decimal(&mut message, (len - 1) as u64);
        message.append(").");
        plan.push(CliStep::Fail { message });
    } else {
        plan.push(CliStep::PlayInForeground { song: songs[index].clone() });
    }
    proof {
        assert(plan.deep_view() =~= select_plan(index, songs.deep_view()));
    }
    plan
}

/// Plans `playlist`.
pub fn handle_playlist(songs: &Vec<Song>) -> (plan: Vec<CliStep>)
    ensures
        plan.deep_view() == playlist_plan(songs.deep_view()),
{
    if songs.len() == 0 {
        return empty_library();
    }
    let mut plan: Vec<CliStep> = Vec::new();
    plan.push(CliStep::PlayAllInForeground);
    proof {
        assert(plan.deep_view() =~= playlist_plan(songs.deep_view()));
    }
    plan
}

/// Plans `refresh` for the root of the library that was stored.
pub fn handle_refresh(root: &Option<String>) -> (plan: Vec<CliStep>)
    ensures
        plan.deep_view() == refresh_plan(root.deep_view()),
{
    let mut plan: Vec<CliStep> = Vec::new();
    match root {
        None => {
            plan.push(
                CliStep::Fail {
                    message: String::from_str(
                        "No music path set. Run 'music-cli path <DIR>' first.",
                    ),
                },
            );
        },
        Some(root) => {
            let shown = path_debug_text(root.as_str());
            plan.push(CliStep::Print { message: joined3("Scanning ", shown.as_str(), "...") });
            plan.push(CliStep::ScanAndStore { root: root.clone() });
        },
    }
    proof {
        assert(plan.deep_view() =~= refresh_plan(root.deep_view()));
    }
    plan
}

/// Plans `path`, for the directory in its canonical form and whether it is
/// a directory.
pub fn handle_set_path(path: &str, is_directory: bool) -> (plan: Vec<CliStep>)
    ensures
        plan.deep_view() == set_path_plan(path@, is_directory),
{
    let mut plan: Vec<CliStep> = Vec::new();
    if !is_directory {
        plan.push(
            CliStep::Fail { message: String::from_str("The path provided is not a valid directory.") },
        );
    } else {
        let shown = path_debug_text(path);
        plan.push(CliStep::SaveRootPath { path: String::from_str(path) });
        plan.push(
            CliStep::Print { message: crate::text::joined("Music path updated to: ", shown.as_str()) },
        );
        plan.push(CliStep::Print { message: joined3("Scanning ", shown.as_str(), "...") });
        plan.push(CliStep::ScanAndStore { root: String::from_str(path) });
    }
    proof {
        assert(plan.deep_view() =~= set_path_plan(path@, is_directory));
    }
    plan
}

/// What `refresh` says once `count` songs were found.
pub fn scan_done_message(count: usize) -> (message: String)
    ensures
        message@ == scan_done_text(count as nat),
{
    let mut message = String::from_str("Refresh complete. Found ");
    append_decimal(&mut message, count as u64);
    message.append(" songs.");
    message
}

/// The warning of a file whose tags cannot be read, with the reason.
pub fn metadata_warning(path: &str, reason: &str) -> (message: String)
    ensures
        message@ == metadata_warning_text(path@, reason@),
{
    let shown = path_debug_text(path);
    let mut message = joined3("Warning: Failed to read metadata for ", shown.as_str(), ": ");
    message.append(reason);
    message
}

} // verus!
