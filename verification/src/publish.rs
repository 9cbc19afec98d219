//! Publishing a storypack folder to an FTP server.
//!
//! The folder is uploaded file by file, directories before what follows them,
//! into a remote folder of the same name. The caller reads the folder into a
//! tree of `LocalEntry`; this module counts its files and lays out the
//! commands for the server, each upload with the number it brings the count
//! to, so that progress can be reported against the total.

use vstd::prelude::*;
use vstd::string::*;
use crate::paths;
use crate::paths::file_name_of;
use crate::text::{optional_text, result_text};

verus! {

/// The port of the FTP control connection, as it is appended to the host.
pub const PORT_SUFFIX: &'static str = ":21";

/// How to reach the server and where on it to publish.
#[derive(Debug, Clone)]
pub struct FtpConfig {
    pub host: String,
    pub username: String,
    pub password: String,
    pub remote_path: Option<String>,
}

/// An `FtpConfig` as characters.
pub struct FtpConfigView {
    pub host: Seq<char>,
    pub username: Seq<char>,
    pub password: Seq<char>,
    pub remote_path: Option<Seq<char>>,
}

impl View for FtpConfig {
    type V = FtpConfigView;

    open spec fn view(&self) -> FtpConfigView {
        FtpConfigView {
            host: self.host@,
            username: self.username@,
            password: self.password@,
            remote_path: optional_text(self.remote_path),
        }
    }
}

/// One entry of a local folder. A file's name is `None` where it cannot be
/// written as text, and such a file cannot be uploaded.
#[derive(Debug)]
pub enum LocalEntry {
    File { name: Option<String>, path: String },
    Directory { name: String, entries: Vec<LocalEntry> },
}

/// A `LocalEntry` as characters.
pub enum EntryView {
    File { name: Option<Seq<char>>, path: Seq<char> },
    Directory { name: Seq<char>, entries: Seq<EntryView> },
}

/// The entry `e` as characters, and so its entries, all the way down.
pub open spec fn entry_view(e: LocalEntry) -> EntryView
    decreases e,
{
    match e {
        LocalEntry::File { name, path } => EntryView::File {
            name: optional_text(name),
            path: path@,
        },
        LocalEntry::Directory { name, entries } => EntryView::Directory {
            name: name@,
            entries: Seq::new(
                entries@.len(),
                |i: int|
                    if 0 <= i < entries@.len() {
                        entry_view(entries@[i])
                    } else {
                        EntryView::File { name: None, path: Seq::empty() }
                    },
            ),
        },
    }
}

impl View for LocalEntry {
    type V = EntryView;

    open spec fn view(&self) -> EntryView {
        entry_view(*self)
    }
}

/// The views of the entries of `v`, in order.
pub open spec fn entry_views(v: Seq<LocalEntry>) -> Seq<EntryView> {
    Seq::new(v.len(), |i: int| v[i]@)
}

/// One command for the server.
#[derive(Debug)]
pub enum UploadStep {
    /// Create the directory `name`; it may exist already, so a refusal is
    /// ignored.
    MakeDir { name: String },
    /// Change into the directory `name`.
    Enter { name: String },
    /// Change back to the parent directory.
    Leave,
    /// Store the local file at `path` under `name`, which brings the number
    /// of files uploaded to `uploaded`.
    Put { name: String, path: String, uploaded: usize },
}

/// An `UploadStep` as characters and numbers.
pub enum StepView {
    MakeDir { name: Seq<char> },
    Enter { name: Seq<char> },
    Leave,
    Put { name: Seq<char>, path: Seq<char>, uploaded: nat },
}

impl View for UploadStep {
    type V = StepView;

    open spec fn view(&self) -> StepView {
        match self {
            UploadStep::MakeDir { name } => StepView::MakeDir { name: name@ },
            UploadStep::Enter { name } => StepView::Enter { name: name@ },
            UploadStep::Leave => StepView::Leave,
            UploadStep::Put { name, path, uploaded } => StepView::Put {
                name: name@,
                path: path@,
                uploaded: *uploaded as nat,
            },
        }
    }
}

/// The views of the steps of `v`, in order.
pub open spec fn step_views(v: Seq<UploadStep>) -> Seq<StepView> {
    v.map_values(|s: UploadStep| s@)
}

/// The number of files in and under `e`.
pub open spec fn files_in(e: EntryView) -> nat
    decreases e,
{
    match e {
        EntryView::File { .. } => 1,
        EntryView::Directory { entries, .. } => files_among(entries),
    }
}

/// The number of files in and under `entries`.
pub open spec fn files_among(entries: Seq<EntryView>) -> nat
    decreases entries,
{
    if entries.len() == 0 {
        0
    } else {
        files_among(entries.drop_last()) + files_in(entries.last())
    }
}

/// Every file in and under `e` has a name that can be written as text.
pub open spec fn nameable(e: EntryView) -> bool
    decreases e,
{
    match e {
        EntryView::File { name, .. } => name is Some,
        EntryView::Directory { entries, .. } => all_nameable(entries),
    }
}

/// Every file in and under `entries` has a name that can be written as text.
pub open spec fn all_nameable(entries: Seq<EntryView>) -> bool
    decreases entries,
{
    if entries.len() == 0 {
        true
    } else {
        all_nameable(entries.drop_last()) && nameable(entries.last())
    }
}

/// The commands that upload `e` after `done` files have been uploaded: a file
/// is stored; a directory is created and entered, its entries are uploaded in
/// order, and it is left again. The commands end before the first file
/// without a name.
pub open spec fn steps_of(e: EntryView, done: nat) -> Seq<StepView>
    decreases e,
{
    match e {
        EntryView::File { name: Some(name), path } => seq![
            StepView::Put { name, path, uploaded: done + 1 },
        ],
        EntryView::File { name: None, .. } => Seq::empty(),
        EntryView::Directory { name, entries } => {
            let inside = seq![StepView::MakeDir { name }, StepView::Enter { name }] + steps_among(
                entries,
                done,
            );
            if all_nameable(entries) {
                inside.push(StepView::Leave)
            } else {
                inside
            }
        },
    }
}

/// The commands that upload `entries` in order after `done` files have been
/// uploaded, up to the first file without a name.
pub open spec fn steps_among(entries: Seq<EntryView>, done: nat) -> Seq<StepView>
    decreases entries,
{
    if entries.len() == 0 {
        Seq::empty()
    } else if all_nameable(entries.drop_last()) {
        steps_among(entries.drop_last(), done) + steps_of(
            entries.last(),
            done + files_among(entries.drop_last()),
        )
    } else {
        steps_among(entries.drop_last(), done)
    }
}

/// A directory's view holds the views of its entries.
pub proof fn lemma_directory_view(entry: LocalEntry)
    requires
        entry is Directory,
    ensures
        entry@ == (EntryView::Directory {
            name: entry->Directory_name@,
            entries: entry_views(entry->entries@),
        }),
{
    assert(entry@->entries =~= entry_views(entry->entries@));
}

/// The first `i` entries hold no more files than all of them, and are all
/// nameable if all of them are.
pub proof fn lemma_prefix(entries: Seq<EntryView>, i: int)
    requires
        0 <= i <= entries.len(),
    ensures
        files_among(entries.take(i)) <= files_among(entries),
        all_nameable(entries) ==> all_nameable(entries.take(i)),
    decreases entries.len(),
{
    if i == entries.len() {
        assert(entries.take(i) == entries);
    } else {
        lemma_prefix(entries.drop_last(), i);
        assert(entries.drop_last().take(i) == entries.take(i));
    }
}

/// One more entry adds its files to the count, and its commands to the
/// commands as long as every file before it can be named.
pub proof fn lemma_next_entry(entries: Seq<EntryView>, i: int, done: nat)
    requires
        0 <= i < entries.len(),
    ensures
        files_among(entries.take(i + 1)) == files_among(entries.take(i)) + files_in(entries[i]),
        all_nameable(entries.take(i + 1)) == (all_nameable(entries.take(i)) && nameable(
            entries[i],
        )),
        all_nameable(entries.take(i)) ==> steps_among(entries.take(i + 1), done) == steps_among(
            entries.take(i),
            done,
        ) + steps_of(entries[i], done + files_among(entries.take(i))),
        !all_nameable(entries.take(i)) ==> steps_among(entries.take(i + 1), done) == steps_among(
            entries.take(i),
            done,
        ),
{
    let next = entries.take(i + 1);
    assert(next.drop_last() == entries.take(i));
    assert(next.last() == entries[i]);
}

/// Counts the files in and under `entries`. The answer is `None` where the
/// number does not fit a `usize`.
pub fn count_files(entries: &Vec<LocalEntry>) -> (r: Option<usize>)
    ensures
        match r {
            Some(count) => count == files_among(entry_views(entries@)),
            None => files_among(entry_views(entries@)) > usize::MAX,
        },
    decreases entries,
{
    let ghost views = entry_views(entries@);
    let mut count: usize = 0;
    let mut i: usize = 0;
    while i < entries.len()
        invariant
            i <= entries.len(),
            views == entry_views(entries@),
            count == files_among(views.take(i as int)),
        decreases entries.len() - i,
    {
        proof {
            lemma_next_entry(views, i as int, 0);
            lemma_prefix(views, i + 1);
        }
        let inside = match &entries[i] {
            LocalEntry::File { .. } => Some(1usize),
            LocalEntry::Directory { entries: below, .. } => {
                proof {
                    lemma_directory_view(entries[i as int]);
                }
                count_files(below)
            },
        };
        match inside {
            Some(files) => {
                if files > usize::MAX - count {
                    return None;
                }
                count = count + files;
            },
            None => {
                return None;
            },
        }
        i += 1;
    }
    assert(views.take(i as int) == views);
    Some(count)
}

/// The commands that upload a folder, and how far they get.
#[derive(Debug)]
pub struct UploadPlan {
    /// The number of files in the folder.
    pub total: usize,
    /// The commands, in the order to send them.
    pub steps: Vec<UploadStep>,
    /// Whether the commands upload the whole folder. If not, they stop before
    /// a file whose name cannot be written as text, and the upload fails
    /// there.
    pub complete: bool,
}

fn push_step(steps: &mut Vec<UploadStep>, step: UploadStep)
    ensures
        step_views(final(steps)@) == step_views(old(steps)@).push(step@),
{
    steps.push(step);
    assert(step_views(steps@) =~= step_views(old(steps)@).push(step@));
}

fn plan_entries(entries: &Vec<LocalEntry>, steps: &mut Vec<UploadStep>, done: usize) -> (r: (
    bool,
    usize,
))
    requires
        done + files_among(entry_views(entries@)) <= usize::MAX,
    ensures
        step_views(final(steps)@) == step_views(old(steps)@) + steps_among(
            entry_views(entries@),
            done as nat,
        ),
        r.0 == all_nameable(entry_views(entries@)),
        r.0 ==> r.1 == done + files_among(entry_views(entries@)),
    decreases entries,
{
    let ghost views = entry_views(entries@);
    let ghost before = step_views(steps@);
    let mut uploaded = done;
    let mut i: usize = 0;
    while i < entries.len()
        invariant
            i <= entries.len(),
            views == entry_views(entries@),
            before == step_views(old(steps)@),
            done + files_among(views) <= usize::MAX,
            all_nameable(views.take(i as int)),
            uploaded == done + files_among(views.take(i as int)),
            step_views(steps@) == before + steps_among(views.take(i as int), done as nat),
        decreases entries.len() - i,
    {
        proof {
            lemma_next_entry(views, i as int, done as nat);
            lemma_prefix(views, i + 1);
        }
        let ghost earlier = step_views(steps@);
        let mut complete = true;
        match &entries[i] {
            LocalEntry::File { name: Some(name), path } => {
                uploaded = uploaded + 1;
                push_step(
                    steps,
                    UploadStep::Put { name: name.clone(), path: path.clone(), uploaded },
                );
            },
            LocalEntry::File { name: None, .. } => {
                complete = false;
            },
            LocalEntry::Directory { name, entries: below } => {
                proof {
                    lemma_directory_view(entries[i as int]);
                }
                push_step(steps, UploadStep::MakeDir { name: name.clone() });
                push_step(steps, UploadStep::Enter { name: name.clone() });
                let (inner_complete, inner_uploaded) = plan_entries(below, steps, uploaded);
                if inner_complete {
                    push_step(steps, UploadStep::Leave);
                    uploaded = inner_uploaded;
                } else {
                    complete = false;
                }
            },
        }
        proof {
            assert(step_views(steps@) =~= earlier + steps_of(
                views[i as int],
                done as nat + files_among(views.take(i as int)),
            ));
            assert(complete == nameable(views[i as int]));
        }
        if !complete {
            proof {
                lemma_rest_adds_nothing(views, i + 1, done as nat);
                assert(step_views(steps@) =~= before + steps_among(views, done as nat));
            }
            return (false, uploaded);
        }
        i += 1;
    }
    assert(views.take(i as int) == views);
    (true, uploaded)
}

/// Once a file without a name is among the first `i` entries, the commands
/// for all entries are those for the first `i`.
pub proof fn lemma_rest_adds_nothing(entries: Seq<EntryView>, i: int, done: nat)
    requires
        0 <= i <= entries.len(),
        !all_nameable(entries.take(i)),
    ensures
        !all_nameable(entries),
        steps_among(entries, done) == steps_among(entries.take(i), done),
    decreases entries.len(),
{
    if i == entries.len() {
        assert(entries.take(i) == entries);
    } else {
        assert(entries.drop_last().take(i) == entries.take(i));
        lemma_rest_adds_nothing(entries.drop_last(), i, done);
    }
}

/// Lays out the upload of `entries`. The answer is `None` where the number of
/// files does not fit a `usize`.
pub fn upload_plan(entries: &Vec<LocalEntry>) -> (r: Option<UploadPlan>)
    ensures
        match r {
            Some(plan) => {
                &&& plan.total == files_among(entry_views(entries@))
                &&& step_views(plan.steps@) == steps_among(entry_views(entries@), 0)
                &&& plan.complete == all_nameable(entry_views(entries@))
            },
            None => files_among(entry_views(entries@)) > usize::MAX,
        },
{
    match count_files(entries) {
        Some(total) => {
            let mut steps: Vec<UploadStep> = Vec::new();
            assert(step_views(steps@) =~= Seq::<StepView>::empty());
            let (complete, _) = plan_entries(entries, &mut steps, 0);
            Some(UploadPlan { total, steps, complete })
        },
        None => None,
    }
}

/// The numbers that the uploads among `steps` bring the count to, in order.
pub open spec fn upload_numbers(steps: Seq<StepView>) -> Seq<nat>
    decreases steps.len(),
{
    if steps.len() == 0 {
        Seq::empty()
    } else {
        match steps.last() {
            StepView::Put { uploaded, .. } => upload_numbers(steps.drop_last()).push(uploaded),
            _ => upload_numbers(steps.drop_last()),
        }
    }
}

/// How many directories deeper the server stands after `steps` than before.
pub open spec fn depth_after(steps: Seq<StepView>) -> int
    decreases steps.len(),
{
    if steps.len() == 0 {
        0
    } else {
        match steps.last() {
            StepView::Enter { .. } => depth_after(steps.drop_last()) + 1,
            StepView::Leave => depth_after(steps.drop_last()) - 1,
            _ => depth_after(steps.drop_last()),
        }
    }
}

/// The uploads of two runs of commands are those of the first, then those of
/// the second, and the depths add up.
pub proof fn lemma_steps_concat(a: Seq<StepView>, b: Seq<StepView>)
    ensures
        upload_numbers(a + b) == upload_numbers(a) + upload_numbers(b),
        depth_after(a + b) == depth_after(a) + depth_after(b),
    decreases b.len(),
{
    if b.len() == 0 {
        assert(a + b == a);
        assert(upload_numbers(a) + upload_numbers(b) == upload_numbers(a));
    } else {
        assert((a + b).drop_last() == a + b.drop_last());
        assert((a + b).last() == b.last());
        lemma_steps_concat(a, b.drop_last());
        assert(upload_numbers(a + b) == upload_numbers(a) + upload_numbers(b));
    }
}

/// The uploads of one entry count on from `done` without a gap, there are no
/// more of them than the entry has files, and the server ends at or below
/// where it began. If every file can be named, every file is uploaded and the
/// server ends where it began.
pub proof fn lemma_entry_progress(e: EntryView, done: nat)
    ensures
        upload_numbers(steps_of(e, done)).len() <= files_in(e),
        forall|k: int|
            0 <= k < upload_numbers(steps_of(e, done)).len() ==> #[trigger] upload_numbers(
                steps_of(e, done),
            )[k] == done + k + 1,
        depth_after(steps_of(e, done)) >= 0,
        nameable(e) ==> upload_numbers(steps_of(e, done)).len() == files_in(e) && depth_after(
            steps_of(e, done),
        ) == 0,
    decreases e, 0nat,
{
    reveal_with_fuel(upload_numbers, 3);
    reveal_with_fuel(depth_after, 3);
    match e {
        EntryView::File { name: Some(name), path } => {
            let put = StepView::Put { name, path, uploaded: done + 1 };
            assert(seq![put].drop_last() == Seq::<StepView>::empty());
            assert(upload_numbers(seq![put]) == seq![(done + 1) as nat]);
            assert(depth_after(seq![put]) == 0);
        },
        EntryView::File { name: None, .. } => {},
        EntryView::Directory { name, entries } => {
            let open = seq![StepView::MakeDir { name }, StepView::Enter { name }];
            let below = steps_among(entries, done);
            assert(open.drop_last() == seq![StepView::MakeDir { name }]);
            assert(open.drop_last().drop_last() == Seq::<StepView>::empty());
            assert(upload_numbers(open) == Seq::<nat>::empty());
            assert(depth_after(open) == 1);
            lemma_steps_concat(open, below);
            lemma_progress(entries, done);
            assert(upload_numbers(open + below) == upload_numbers(below));
            if all_nameable(entries) {
                let whole = (open + below).push(StepView::Leave);
                assert(whole.drop_last() == open + below);
            }
        },
    }
}

/// The uploads of a folder count 1, 2, 3 and so on from `done` without a gap,
/// there are no more of them than the folder has files, and the server ends
/// at or below where it began. If every file can be named, every file is
/// uploaded and the server ends where it began.
pub proof fn lemma_progress(entries: Seq<EntryView>, done: nat)
    ensures
        upload_numbers(steps_among(entries, done)).len() <= files_among(entries),
        forall|k: int|
            0 <= k < upload_numbers(steps_among(entries, done)).len() ==> #[trigger] upload_numbers(
                steps_among(entries, done),
            )[k] == done + k + 1,
        depth_after(steps_among(entries, done)) >= 0,
        all_nameable(entries) ==> upload_numbers(steps_among(entries, done)).len() == files_among(
            entries,
        ) && depth_after(steps_among(entries, done)) == 0,
    decreases entries, 1nat,
{
    if entries.len() > 0 {
        let earlier = entries.drop_last();
        lemma_progress(earlier, done);
        if all_nameable(earlier) {
            let head = steps_among(earlier, done);
            let tail = steps_of(entries.last(), done + files_among(earlier));
            lemma_entry_progress(entries.last(), done + files_among(earlier));
            lemma_steps_concat(head, tail);
        }
    }
}

/// Every upload of a whole plan brings the count to at least 1 and at most
/// the number of files in the folder: where progress is reported as a share
/// of the total, the total is not zero and the share not above the whole.
pub proof fn lemma_uploads_within_total(entries: Seq<EntryView>)
    ensures
        forall|k: int|
            0 <= k < upload_numbers(steps_among(entries, 0)).len() ==> 1 <= #[trigger] upload_numbers(
                steps_among(entries, 0),
            )[k] <= files_among(entries),
{
    lemma_progress(entries, 0);
}

/// The address of the server at `host`: the host with `PORT_SUFFIX`.
pub open spec fn ftp_address_of(host: Seq<char>) -> Seq<char> {
    host + PORT_SUFFIX@
}

/// The remote directory to publish into: the one configured, unless it is
/// absent or empty.
pub open spec fn remote_directory_of(remote_path: Option<Seq<char>>) -> Option<Seq<char>> {
    match remote_path {
        Some(path) => if path.len() == 0 {
            None
        } else {
            Some(path)
        },
        None => None,
    }
}

/// The name of the remote folder for a local folder whose file name is
/// `found`, or the failure where it has none.
pub open spec fn folder_name_of(found: Option<Seq<char>>) -> Result<Seq<char>, Seq<char>> {
    match found {
        Some(name) => Ok(name),
        None => Err("Invalid folder path"@),
    }
}

/// The message after a finished upload to `host`.
pub open spec fn upload_done_of(host: Seq<char>) -> Seq<char> {
    "Successfully uploaded to "@ + host
}

/// Writes the address of the server at `host`.
pub fn ftp_address(host: &str) -> (r: String)
    ensures
        r@ == ftp_address_of(host@),
{
    let mut address = String::from_str(host);
    address.append(PORT_SUFFIX);
    address
}

/// Says which remote directory to create and enter first, if any.
pub fn remote_directory(config: &FtpConfig) -> (r: Option<String>)
    ensures
        optional_text(r) == remote_directory_of(config@.remote_path),
{
    match &config.remote_path {
        Some(path) => {
            if path.as_str().is_empty() {
                None
            } else {
                Some(path.clone())
            }
        },
        None => None,
    }
}

/// Turns the file name found for the local folder into the name of the
/// remote one.
pub fn required_folder_name(found: Option<String>) -> (r: Result<String, String>)
    ensures
        result_text(r) == folder_name_of(optional_text(found)),
{
    match found {
        Some(name) => Ok(name),
        None => Err(String::from_str("Invalid folder path")),
    }
}

/// Names the remote folder for `local_folder` after its final component.
pub fn upload_folder_name(local_folder: &str) -> (r: Result<String, String>)
    ensures
        result_text(r) == folder_name_of(file_name_of(local_folder@)),
{
    required_folder_name(paths::file_name(local_folder))
}

/// Writes the message after a finished upload.
pub fn upload_done_message(host: &str) -> (r: String)
    ensures
        r@ == upload_done_of(host@),
{
    let mut message = String::from_str("Successfully uploaded to ");
    message.append(host);
    message
}

} // verus!
