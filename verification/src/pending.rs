//! The queue of commits whose session could not be resolved yet.
//!
//! Each pending commit is one JSON file, `<commit>.json`, in one directory.
//! The library works on a snapshot of that directory, [`PendingDir`]; reading
//! and writing the files themselves is left to the caller.

use vstd::prelude::*;
use crate::json::{
    get_i64,
    get_text,
    get_u64,
    i64_of,
    lookup,
    parse_members,
    parsed_members,
    pretty_text,
    text_of,
    u64_of,
    write_pretty,
    JsonMember,
    JsonMemberView,
    JsonScalar,
    JsonScalarView,
};
use crate::text::{chars_eq, concat, join_path, joined, slice_chars, str_eq, to_chars};

verus! {

/// A commit that is waiting for its session.
#[derive(Debug, Clone, PartialEq, Eq)]
pub struct PendingRecord {
    /// Full commit hash.
    pub commit: String,
    /// Absolute path of the repository root.
    pub repo: String,
    /// Commit time, in seconds since the epoch.
    pub commit_time: i64,
    /// Number of attempts so far.
    pub attempts: u32,
    /// Time of the last attempt, in seconds since the epoch.
    pub last_attempt: i64,
}

pub struct PendingRecordView {
    pub commit: Seq<char>,
    pub repo: Seq<char>,
    pub commit_time: i64,
    pub attempts: u32,
    pub last_attempt: i64,
}

impl DeepView for PendingRecord {
    type V = PendingRecordView;

    open spec fn deep_view(&self) -> PendingRecordView {
        PendingRecordView {
            commit: self.commit@,
            repo: self.repo@,
            commit_time: self.commit_time,
            attempts: self.attempts,
            last_attempt: self.last_attempt,
        }
    }
}

/// One file of the pending directory: its name and, where it could be read,
/// its text.
#[derive(Debug, PartialEq, Eq)]
pub struct PendingFile {
    pub name: String,
    pub content: Option<String>,
}

pub struct PendingFileView {
    pub name: Seq<char>,
    pub content: Option<Seq<char>>,
}

impl DeepView for PendingFile {
    type V = PendingFileView;

    open spec fn deep_view(&self) -> PendingFileView {
        PendingFileView { name: self.name@, content: self.content.deep_view() }
    }
}

/// A snapshot of the pending directory.
#[derive(Debug, PartialEq, Eq)]
pub struct PendingDir {
    pub files: Vec<PendingFile>,
}

impl DeepView for PendingDir {
    type V = Seq<PendingFileView>;

    open spec fn deep_view(&self) -> Seq<PendingFileView> {
        self.files.deep_view()
    }
}

/// Why the pending directory cannot be named.
#[derive(Debug, Clone, Copy, PartialEq, Eq, Structural)]
pub enum PendingError {
    /// The home directory is not known.
    NoHome,
}

/// The pending directory of the user whose home directory is `home`.
pub open spec fn pending_dir_of(home: Seq<char>) -> Seq<char> {
    joined(joined(home, ".ai-barometer"@), "pending"@)
}

/// The directory that holds the pending records: `<home>/.ai-barometer/pending`.
pub fn pending_dir(home: Option<&str>) -> (r: Result<String, PendingError>)
    ensures
        match home {
            Some(h) => r matches Ok(d) && d@ == pending_dir_of(h@),
            None => r == Err::<String, PendingError>(PendingError::NoHome),
        },
{
    match home {
        Some(h) => {
            let base = join_path(h, ".ai-barometer");
            Ok(join_path(base.as_str(), "pending"))
        },
        None => Err(PendingError::NoHome),
    }
}

/// The name of the file that holds the record of `commit`.
pub open spec fn file_name_of(commit: Seq<char>) -> Seq<char> {
    commit + ".json"@
}

pub fn pending_file_name(commit: &str) -> (r: String)
    ensures
        r@ == file_name_of(commit@),
{
    concat(commit, ".json")
}

/// A file name with a stem and the extension `json`.
pub open spec fn is_json_name(name: Seq<char>) -> bool {
    name.len() > 5 && name.subrange(name.len() - 5, name.len() as int) == ".json"@
}

pub fn has_json_extension(name: &str) -> (r: bool)
    ensures
        r == is_json_name(name@),
{
    let chars = to_chars(name);
    let suffix = to_chars(".json");
    proof {
        reveal_strlit(".json");
    }
    let n: usize = chars.len();
    if n <= 5 {
        return false;
    }
    let tail = slice_chars(&chars, n - 5, n);
    chars_eq(&tail, &suffix)
}

/// The record that a first attempt on `commit` leaves behind. The attempt
/// count always starts at one: a later write for the same commit starts over.
pub open spec fn new_record(
    commit: Seq<char>,
    repo: Seq<char>,
    commit_time: i64,
    now: i64,
) -> PendingRecordView {
    PendingRecordView { commit, repo, commit_time, attempts: 1, last_attempt: now }
}

pub fn pending_record(commit: &str, repo: &str, commit_time: i64, now: i64) -> (r: PendingRecord)
    ensures
        r.deep_view() == new_record(commit@, repo@, commit_time, now),
{
    PendingRecord {
        commit: commit.to_owned(),
        repo: repo.to_owned(),
        commit_time,
        attempts: 1,
        last_attempt: now,
    }
}

/// The members of the JSON object that stands for `record`.
pub open spec fn record_members(record: PendingRecordView) -> Seq<JsonMemberView> {
    seq![
        JsonMemberView { key: "commit"@, value: JsonScalarView::Text(record.commit) },
        JsonMemberView { key: "repo"@, value: JsonScalarView::Text(record.repo) },
        JsonMemberView { key: "commit_time"@, value: JsonScalarView::Int(record.commit_time) },
        JsonMemberView { key: "attempts"@, value: JsonScalarView::Int(record.attempts as i64) },
        JsonMemberView { key: "last_attempt"@, value: JsonScalarView::Int(record.last_attempt) },
    ]
}

/// The JSON text of `record`, as `serde_json` prints it.
pub fn encode_record(record: &PendingRecord) -> (r: String)
    ensures
        r@ == pretty_text(record_members(record.deep_view())),
{
    let mut members: Vec<JsonMember> = Vec::new();
    members.push(
        JsonMember { key: "commit".to_owned(), value: JsonScalar::Text(record.commit.clone()) },
    );
    members.push(
        JsonMember { key: "repo".to_owned(), value: JsonScalar::Text(record.repo.clone()) },
    );
    members.push(
        JsonMember { key: "commit_time".to_owned(), value: JsonScalar::Int(record.commit_time) },
    );
    members.push(
        JsonMember { key: "attempts".to_owned(), value: JsonScalar::Int(record.attempts as i64) },
    );
    members.push(
        JsonMember {
            key: "last_attempt".to_owned(),
            value: JsonScalar::Int(record.last_attempt),
        },
    );
    proof {
        assert(members.deep_view() =~= record_members(record.deep_view()));
    }
    write_pretty(&members).unwrap()
}

/// The record that the members of a JSON object stand for, if it is one of
/// `repo`. The object must name its commit, by a string that is not empty,
/// and its repository, by a string; an object that does not is no record.
/// The commit time, the attempt count and the time of the last attempt count
/// as zero where the member is missing or is no integer of its range; an
/// attempt count above `u32::MAX` is taken modulo 2^32.
pub open spec fn record_of(members: Seq<JsonMemberView>, repo: Seq<char>) -> Option<
    PendingRecordView,
> {
    match text_of(lookup(members, "commit"@)) {
        None => None,
        Some(commit) => if commit.len() == 0 || text_of(lookup(members, "repo"@)) != Some(repo) {
            None
        } else {
            Some(
                PendingRecordView {
                    commit,
                    repo,
                    commit_time: match i64_of(lookup(members, "commit_time"@)) {
                        Some(t) => t,
                        None => 0,
                    },
                    attempts: match u64_of(lookup(members, "attempts"@)) {
                        Some(n) => (n % 0x1_0000_0000) as u32,
                        None => 0,
                    },
                    last_attempt: match i64_of(lookup(members, "last_attempt"@)) {
                        Some(t) => t,
                        None => 0,
                    },
                },
            )
        },
    }
}

pub fn record_from_members(members: &Vec<JsonMember>, repo: &str) -> (r: Option<PendingRecord>)
    ensures
        r.deep_view() == record_of(members.deep_view(), repo@),
{
    let commit = match get_text(members, "commit") {
        Some(t) => t,
        None => {
            return None;
        },
    };
    if to_chars(commit.as_str()).len() == 0 {
        return None;
    }
    let record_repo = match get_text(members, "repo") {
        Some(t) => t,
        None => {
            return None;
        },
    };
    if !str_eq(record_repo.as_str(), repo) {
        return None;
    }
    let commit_time: i64 = match get_i64(members, "commit_time") {
        Some(t) => t,
        None => 0,
    };
    let attempts: u32 = match get_u64(members, "attempts") {
        Some(n) => (n % 0x1_0000_0000) as u32,
        None => 0,
    };
    let last_attempt: i64 = match get_i64(members, "last_attempt") {
        Some(t) => t,
        None => 0,
    };
    Some(PendingRecord { commit, repo: record_repo, commit_time, attempts, last_attempt })
}

/// The record that one file of the directory gives for `repo`: none where
/// the file is no `.json` file, could not be read, holds no JSON, holds no
/// record, or belongs to another repository.
pub open spec fn file_record(file: PendingFileView, repo: Seq<char>) -> Option<PendingRecordView> {
    if !is_json_name(file.name) {
        None
    } else {
        match file.content {
            None => None,
            Some(text) => match parsed_members(text) {
                None => None,
                Some(members) => record_of(members, repo),
            },
        }
    }
}

/// The records of `repo` in a directory, in the order of its files.
pub open spec fn listed(files: Seq<PendingFileView>, repo: Seq<char>) -> Seq<PendingRecordView>
    decreases files.len(),
{
    if files.len() == 0 {
        Seq::empty()
    } else {
        let rest = listed(files.drop_last(), repo);
        match file_record(files.last(), repo) {
            Some(record) => rest.push(record),
            None => rest,
        }
    }
}

fn read_file_record(file: &PendingFile, repo: &str) -> (r: Option<PendingRecord>)
    ensures
        r.deep_view() == file_record(file.deep_view(), repo@),
{
    if !has_json_extension(file.name.as_str()) {
        return None;
    }
    match &file.content {
        None => None,
        Some(text) => match parse_members(text.as_str()) {
            None => None,
            Some(members) => record_from_members(&members, repo),
        },
    }
}

/// All pending records of `repo`. Files that cannot be read or understood
/// are passed over.
pub fn list_for_repo(dir: &PendingDir, repo: &str) -> (r: Vec<PendingRecord>)
    ensures
        r.deep_view() == listed(dir.deep_view(), repo@),
{
    let mut records: Vec<PendingRecord> = Vec::new();
    let mut i: usize = 0;
    let ghost files = dir.files.deep_view();
    proof {
        assert(files.take(0) =~= Seq::<PendingFileView>::empty());
        assert(records.deep_view() =~= Seq::<PendingRecordView>::empty());
    }
    while i < dir.files.len()
        invariant
            i <= dir.files.len(),
            files == dir.files.deep_view(),
            files.len() == dir.files.len(),
            records.deep_view() == listed(files.take(i as int), repo@),
        decreases dir.files.len() - i,
    {
        proof {
            assert(files.take(i + 1).drop_last() =~= files.take(i as int));
            assert(files.take(i + 1).last() == dir.files[i as int].deep_view());
        }
        let ghost before = records.deep_view();
        match read_file_record(&dir.files[i], repo) {
            Some(record) => {
                records.push(record);
                proof {
                    assert(records.deep_view() =~= before.push(record.deep_view()));
                }
            },
            None => {},
        }
        i += 1;
    }
    proof {
        assert(files.take(i as int) =~= files);
    }
    records
}

/// The files of a directory but those called `name`.
pub open spec fn without_name(files: Seq<PendingFileView>, name: Seq<char>) -> Seq<
    PendingFileView,
>
    decreases files.len(),
{
    if files.len() == 0 {
        Seq::empty()
    } else {
        let rest = without_name(files.drop_last(), name);
        if files.last().name == name {
            rest
        } else {
            rest.push(files.last())
        }
    }
}

fn drop_file(dir: &mut PendingDir, name: &str)
    ensures
        final(dir).deep_view() == without_name(old(dir).deep_view(), name@),
{
    let mut kept: Vec<PendingFile> = Vec::new();
    let mut i: usize = 0;
    let ghost files = dir.files.deep_view();
    proof {
        assert(files.take(0) =~= Seq::<PendingFileView>::empty());
        assert(kept.deep_view() =~= Seq::<PendingFileView>::empty());
    }
    while i < dir.files.len()
        invariant
            i <= dir.files.len(),
            files == dir.files.deep_view(),
            files.len() == dir.files.len(),
            kept.deep_view() == without_name(files.take(i as int), name@),
        decreases dir.files.len() - i,
    {
        proof {
            assert(files.take(i + 1).drop_last() =~= files.take(i as int));
            assert(files.take(i + 1).last() == dir.files[i as int].deep_view());
        }
        let ghost before = kept.deep_view();
        if !str_eq(dir.files[i].name.as_str(), name) {
            let content = match &dir.files[i].content {
                Some(text) => Some(text.clone()),
                None => None,
            };
            let file = PendingFile { name: dir.files[i].name.clone(), content };
            kept.push(file);
            proof {
                assert(kept.deep_view() =~= before.push(file.deep_view()));
            }
        }
        i += 1;
    }
    proof {
        assert(files.take(i as int) =~= files);
    }
    dir.files = kept;
}

/// The directory after the record of `commit` was written: the file
/// `<commit>.json` holds `text`, and every other file is as before.
pub open spec fn after_write(files: Seq<PendingFileView>, commit: Seq<char>, text: Seq<char>) -> Seq<
    PendingFileView,
> {
    without_name(files, file_name_of(commit)).push(
        PendingFileView { name: file_name_of(commit), content: Some(text) },
    )
}

/// The directory after `commit` of `repo` was recorded as pending.
pub open spec fn after_pending(
    files: Seq<PendingFileView>,
    commit: Seq<char>,
    repo: Seq<char>,
    commit_time: i64,
    now: i64,
) -> Seq<PendingFileView> {
    after_write(
        files,
        commit,
        pretty_text(record_members(new_record(commit, repo, commit_time, now))),
    )
}

/// Records that `commit` of `repo` is waiting for its session, replacing an
/// earlier record of the same commit.
pub fn write_pending(dir: &mut PendingDir, commit: &str, repo: &str, commit_time: i64, now: i64)
    ensures
        final(dir).deep_view() == after_pending(
            old(dir).deep_view(),
            commit@,
            repo@,
            commit_time,
            now,
        ),
{
    let record = pending_record(commit, repo, commit_time, now);
    let text = encode_record(&record);
    let name = pending_file_name(commit);
    drop_file(dir, name.as_str());
    let ghost before = dir.files.deep_view();
    let file = PendingFile { name, content: Some(text) };
    dir.files.push(file);
    proof {
        assert(dir.files.deep_view() =~= before.push(file.deep_view()));
    }
}

/// Removes the record of `commit`; nothing happens where there is none.
pub fn remove(dir: &mut PendingDir, commit: &str)
    ensures
        final(dir).deep_view() == without_name(old(dir).deep_view(), file_name_of(commit@)),
{
    let name = pending_file_name(commit);
    drop_file(dir, name.as_str());
}

/// After a removal no file of that name is left.
pub proof fn lemma_removed_is_absent(files: Seq<PendingFileView>, name: Seq<char>)
    ensures
        forall|i: int|
            0 <= i < without_name(files, name).len() ==> (#[trigger] without_name(
                files,
                name,
            )[i]).name != name,
    decreases files.len(),
{
    if files.len() > 0 {
        lemma_removed_is_absent(files.drop_last(), name);
    }
}

/// A removal leaves no record of the commit behind: what is listed
/// afterwards comes from files of other names.
pub proof fn lemma_removal_keeps_others(files: Seq<PendingFileView>, name: Seq<char>, i: int)
    requires
        0 <= i < files.len(),
        files[i].name != name,
    ensures
        without_name(files, name).contains(files[i]),
    decreases files.len(),
{
    let rest = without_name(files.drop_last(), name);
    if i == files.len() - 1 {
        assert(rest.push(files.last())[rest.len() as int] == files[i]);
    } else {
        lemma_removal_keeps_others(files.drop_last(), name, i);
        let k = choose|k: int| 0 <= k < rest.len() && rest[k] == files.drop_last()[i];
        if files.last().name != name {
            assert(rest.push(files.last())[k] == files[i]);
        }
    }
}

/// Writing the record of a commit and then removing it leaves the
/// directory as a removal alone would have left it.
pub proof fn lemma_write_then_remove(files: Seq<PendingFileView>, commit: Seq<char>, text: Seq<char>)
    ensures
        without_name(after_write(files, commit, text), file_name_of(commit)) == without_name(
            files,
            file_name_of(commit),
        ),
{
    let name = file_name_of(commit);
    let kept = without_name(files, name);
    let written = after_write(files, commit, text);
    assert(written.drop_last() =~= kept);
    lemma_without_name_twice(files, name);
}

/// Removing a name twice is removing it once.
pub proof fn lemma_without_name_twice(files: Seq<PendingFileView>, name: Seq<char>)
    ensures
        without_name(without_name(files, name), name) == without_name(files, name),
    decreases files.len(),
{
    if files.len() > 0 {
        lemma_without_name_twice(files.drop_last(), name);
        let rest = without_name(files.drop_last(), name);
        if files.last().name != name {
            assert(rest.push(files.last()).drop_last() =~= rest);
        }
    }
}

/// No record that is listed lacks its commit, and every one belongs to
/// the repository asked for.
pub proof fn lemma_listed_records_are_keyed(files: Seq<PendingFileView>, repo: Seq<char>)
    ensures
        forall|i: int|
            0 <= i < listed(files, repo).len() ==> (#[trigger] listed(files, repo)[i]).commit.len()
                > 0 && listed(files, repo)[i].repo == repo,
    decreases files.len(),
{
    if files.len() > 0 {
        lemma_listed_records_are_keyed(files.drop_last(), repo);
        let rest = listed(files.drop_last(), repo);
        let all = listed(files, repo);
        assert forall|i: int| 0 <= i < all.len() implies (#[trigger] all[i]).commit.len() > 0
            && all[i].repo == repo by {
            if i < rest.len() {
                assert(all[i] == rest[i]);
            } else {
                assert(file_record(files.last(), repo) == Some(all[i]));
            }
        }
    }
}

/// A file whose JSON object names no commit gives no record, whatever
/// else it holds.
pub proof fn lemma_file_without_commit_is_skipped(file: PendingFileView, repo: Seq<char>)
    requires
        file.content matches Some(text) && parsed_members(text) matches Some(members) && text_of(
            lookup(members, "commit"@),
        ) is None,
    ensures
        file_record(file, repo) is None,
{
}

} // verus!
