//! Unpacking the payload archive: which entries become directories and
//! files under the runtime, which are left out because their names would
//! lead outside it, and when progress is reported.
use crate::layout::is_separator;
use crate::messages::{failure_advice, failure_message, failure_prefix, Failure};
use crate::runtime::{
    entry_action, percent_done, progress_report, unpack_status, unpack_text, EntryAction,
};
use std::io::Cursor;
use vstd::prelude::*;
use zip::ZipArchive;

verus! {

#[verifier::external_type_specification]
#[verifier::external_body]
#[verifier::reject_recursive_types(T)]
pub struct ExCursor<T>(Cursor<T>);

#[verifier::external_type_specification]
#[verifier::external_body]
#[verifier::reject_recursive_types(R)]
pub struct ExZipArchive<R>(ZipArchive<R>);

/// The entries that `zip::ZipArchive::new` lists for `bytes`, in its order,
/// or the text of its error where it refuses the bytes. Each entry is given
/// by its stored name; why it cannot be opened (`None` where it can); and
/// what its data unpacks to, or the text of the error that reading it gives.
pub uninterp spec fn zip_entries(bytes: Seq<u8>) -> Result<
    Seq<(Seq<char>, Option<Seq<char>>, Result<Seq<u8>, Seq<char>>)>,
    Seq<char>,
>;

/// The entries of an open archive, in order, each given as for
/// [`zip_entries`].
pub uninterp spec fn archive_entries(a: ZipArchive<Cursor<Vec<u8>>>) -> Seq<
    (Seq<char>, Option<Seq<char>>, Result<Seq<u8>, Seq<char>>),
>;

/// An entry name that marks a directory: it ends in a separator.
pub open spec fn names_directory(name: Seq<char>) -> bool {
    name.len() > 0 && is_separator(name.last())
}

/// An entry name that leads outside the target directory on every
/// platform: it holds a NUL, is absolute, or starts by going up.
pub open spec fn escapes_everywhere(name: Seq<char>) -> bool {
    ||| name.contains('\0')
    ||| (name.len() > 0 && name[0] == '/')
    ||| name == ".."@
    ||| (name.len() >= 3 && name.take(3) == "../"@)
}

/// An entry name whose path syntax is the same on every platform: it holds
/// no NUL, no backslash and no colon, and is not absolute. Its parts are
/// what lies between its `/` separators.
pub open spec fn plain_relative(name: Seq<char>) -> bool {
    &&& !name.contains('\0')
    &&& !name.contains('\\')
    &&& !name.contains(':')
    &&& !(name.len() > 0 && name[0] == '/')
}

/// The depth after the part `part`, from depth `depth`: `..` goes up one
/// level, an empty part and `.` stay, any other part goes down one.
pub open spec fn part_depth(depth: int, part: Seq<char>) -> int {
    if part == ".."@ {
        depth - 1
    } else if part.len() == 0 || part == "."@ {
        depth
    } else {
        depth + 1
    }
}

/// Reading `rest` at depth `depth`, with `part` the part read so far, the
/// depth never drops below the start.
pub open spec fn never_above(rest: Seq<char>, depth: int, part: Seq<char>) -> bool
    decreases rest.len(),
{
    if rest.len() == 0 {
        part_depth(depth, part) >= 0
    } else if rest[0] == '/' {
        part_depth(depth, part) >= 0 && never_above(
            rest.drop_first(),
            part_depth(depth, part),
            Seq::empty(),
        )
    } else {
        never_above(rest.drop_first(), depth, part.push(rest[0]))
    }
}

/// A name whose parts, read in order, never climb above the directory the
/// name starts from.
pub open spec fn stays_inside(name: Seq<char>) -> bool {
    never_above(name, 0, Seq::empty())
}

/// The sanitised name agrees with the stored one: when there is one it is
/// the stored name; there is none for a name that escapes everywhere; and
/// for a plain relative name there is one exactly when the name stays
/// inside.
pub open spec fn enclosed_agrees(name: Seq<char>, safe_name: Option<String>) -> bool {
    &&& (safe_name matches Some(p) ==> p@ == name)
    &&& (escapes_everywhere(name) ==> safe_name is None)
    &&& (plain_relative(name) ==> (safe_name is Some <==> stays_inside(name)))
}

/// What the header of one archive entry tells.
#[derive(Debug)]
pub struct EntryInfo {
    /// The name as stored in the archive.
    pub name: String,
    /// The name as a path inside the target directory, `None` where the
    /// stored name would lead outside it.
    pub safe_name: Option<String>,
    /// Whether the entry is a directory.
    pub is_dir: bool,
}

/// The header `h` is that of the entry `e`.
pub open spec fn header_of(e: (Seq<char>, Option<Seq<char>>, Result<Seq<u8>, Seq<char>>), h: EntryInfo) -> bool {
    &&& h.name@ == e.0
    &&& h.is_dir == names_directory(e.0)
    &&& enclosed_agrees(e.0, h.safe_name)
}

/// Why the content of an entry could not be had.
pub enum ContentFailure {
    /// The entry could not be opened: the crate's error text.
    Entry(String),
    /// Its data could not be read or unpacked: the reader's error text.
    Data(String),
}

/// Opens an archive held in memory (`zip::ZipArchive::new` on a cursor
/// over the bytes). An error is the text of the crate's error.
#[verifier::external_body]
fn open_archive(bytes: Vec<u8>) -> (r: Result<ZipArchive<Cursor<Vec<u8>>>, String>)
    ensures
        r matches Ok(a) ==> (zip_entries(bytes@) matches Ok(es) && es == archive_entries(a)),
        r matches Err(t) ==> (zip_entries(bytes@) matches Err(c) && c == t@),
{
    match ZipArchive::new(Cursor::new(bytes)) {
        Ok(a) => Ok(a),
        Err(e) => Err(e.to_string()),
    }
}

/// The number of entries (`zip::ZipArchive::len`).
#[verifier::external_body]
fn archive_len(a: &ZipArchive<Cursor<Vec<u8>>>) -> (r: usize)
    ensures
        r == archive_entries(*a).len(),
{
    a.len()
}

/// The header of entry `i` (`zip::ZipArchive::by_index`, then the entry's
/// `name`, `enclosed_name` and `is_dir`). Which names that are not plain
/// relative names and do not escape everywhere `enclosed_name` refuses
/// depends on the platform's path syntax and is not stated. An error is the
/// text of the crate's error.
#[verifier::external_body]
fn entry_header(a: &mut ZipArchive<Cursor<Vec<u8>>>, i: usize) -> (r: Result<EntryInfo, String>)
    requires
        i < archive_entries(*old(a)).len(),
    ensures
        archive_entries(*final(a)) == archive_entries(*old(a)),
        r is Ok <==> archive_entries(*old(a))[i as int].1 is None,
        r matches Ok(h) ==> header_of(archive_entries(*old(a))[i as int], h),
        r matches Err(t) ==> archive_entries(*old(a))[i as int].1 == Some(t@),
{
    match a.by_index(i) {
        Ok(f) => {
            let safe_name = match f.enclosed_name() {
                Some(p) => Some(p.to_string_lossy().into_owned()),
                None => None,
            };
            Ok(EntryInfo { name: f.name().to_string(), safe_name, is_dir: f.is_dir() })
        },
        Err(e) => Err(e.to_string()),
    }
}

/// The unpacked content of entry `i` (`zip::ZipArchive::by_index`, then
/// `read_to_end` on the entry), or the text of the crate's or the reader's
/// error.
#[verifier::external_body]
fn entry_content(a: &mut ZipArchive<Cursor<Vec<u8>>>, i: usize) -> (r: Result<
    Vec<u8>,
    ContentFailure,
>)
    requires
        i < archive_entries(*old(a)).len(),
    ensures
        archive_entries(*final(a)) == archive_entries(*old(a)),
        r matches Err(ContentFailure::Entry(t)) ==> archive_entries(*old(a))[i as int].1 == Some(
            t@,
        ),
        archive_entries(*old(a))[i as int].1 is Some ==> r matches Err(ContentFailure::Entry(_)),
        r matches Ok(d) ==> (archive_entries(*old(a))[i as int].2 matches Ok(c) && c == d@),
        r matches Err(ContentFailure::Data(t)) ==> (archive_entries(*old(a))[i as int].2 matches Err(
            c,
        ) && c == t@),
{
    let mut f = match a.by_index(i) {
        Ok(f) => f,
        Err(e) => return Err(ContentFailure::Entry(e.to_string())),
    };
    let mut data = Vec::new();
    match std::io::Read::read_to_end(&mut f, &mut data) {
        Ok(_) => Ok(data),
        Err(e) => Err(ContentFailure::Data(e.to_string())),
    }
}

/// One step of unpacking, for the caller to carry out on the file system.
pub enum Unpack {
    /// The entry's name would lead outside the runtime: leave it out.
    Skip,
    /// Create this directory (relative to the runtime).
    CreateDir(String),
    /// Write these bytes to this file (relative to the runtime), creating
    /// its parent first.
    WriteFile(String, Vec<u8>),
}

/// One entry's header, its step, and the progress text to show once the
/// step is carried out.
pub struct UnpackStep {
    pub entry: EntryInfo,
    pub action: Unpack,
    pub status: Option<String>,
}

/// Why unpacking stopped.
#[derive(Debug)]
pub enum UnpackError {
    /// An entry could not be opened: the message to show.
    Entry(String),
    /// The content of a file entry that was to be written could not be
    /// read: the entry's header and the reader's error text.
    Content(EntryInfo, String),
}

impl UnpackError {
    /// The message to show for the error.
    pub fn message(self) -> (r: String)
        ensures
            r == (match self {
                UnpackError::Entry(m) => m,
                UnpackError::Content(_, m) => m,
            }),
    {
        match self {
            UnpackError::Entry(m) => m,
            UnpackError::Content(_, m) => m,
        }
    }
}

/// What handling entry `i` of `entries` amounts to, with `last` the last
/// tenth reported before and `last_after` the one reported after: the
/// header of that entry; its step, which follows the header's sanitised
/// name; and a progress text whenever a new tenth of the entries is done.
pub open spec fn step_for_entry(
    entries: Seq<(Seq<char>, Option<Seq<char>>, Result<Seq<u8>, Seq<char>>)>,
    i: int,
    last: nat,
    step: UnpackStep,
    last_after: nat,
) -> bool {
    let pct = percent_done((i + 1) as nat, entries.len());
    &&& header_of(entries[i], step.entry)
    &&& (step.action is Skip <==> step.entry.safe_name is None)
    &&& (step.action matches Unpack::CreateDir(rel) ==> step.entry.is_dir && step.entry.safe_name
        == Some(rel))
    &&& (step.action matches Unpack::WriteFile(rel, data) ==> !step.entry.is_dir
        && step.entry.safe_name == Some(rel) && (entries[i].2 matches Ok(c) && c == data@))
    &&& if pct / 10 > last {
        &&& step.status matches Some(s) && s@ == unpack_text(pct)
        &&& last_after == pct / 10
    } else {
        step.status is None && last_after == last
    }
}

/// Unpacks the payload archive entry by entry, in the archive's order.
pub struct Unpacker {
    archive: ZipArchive<Cursor<Vec<u8>>>,
    next: usize,
    last_tenth: u64,
}

impl Unpacker {
    /// The archive's entries.
    pub closed spec fn entries(&self) -> Seq<(Seq<char>, Option<Seq<char>>, Result<Seq<u8>, Seq<char>>)> {
        archive_entries(self.archive)
    }

    /// How many entries have been handled.
    pub closed spec fn done(&self) -> nat {
        self.next as nat
    }

    /// The last tenth of progress reported.
    pub closed spec fn reported_tenth(&self) -> nat {
        self.last_tenth as nat
    }

    /// Opens the payload archive held in `payload`. Where the archive cannot
    /// be read, the error says so, followed by the crate's reason.
    pub fn open(payload: Vec<u8>) -> (r: Result<Unpacker, String>)
        ensures
            r matches Ok(u) ==> {
                &&& zip_entries(payload@) matches Ok(es) && es == u.entries()
                &&& u.done() == 0
                &&& u.reported_tenth() == 0
            },
            r matches Err(m) ==> (zip_entries(payload@) matches Err(cause) && m@ == failure_prefix(
                Failure::ReadPayload,
            ) + cause + failure_advice(Failure::ReadPayload)),
    {
        match open_archive(payload) {
            Ok(archive) => Ok(Unpacker { archive, next: 0, last_tenth: 0 }),
            Err(cause) => Err(failure_message(Failure::ReadPayload, cause.as_str())),
        }
    }

    /// Handles the next entry: `None` once every entry has been handled.
    /// An entry is left out when its name would lead outside the runtime;
    /// otherwise it becomes the directory or the file that its name says,
    /// with the entry's content. Progress is reported each time a new tenth
    /// of the entries is done. It fails only where the entry cannot be
    /// opened (the message says so, followed by the crate's reason) or where
    /// the content of a file to be written cannot be read (the reader's
    /// reason).
    pub fn next_step(&mut self) -> (r: Result<Option<UnpackStep>, UnpackError>)
        ensures
            final(self).entries() == old(self).entries(),
            old(self).done() >= old(self).entries().len() ==> {
                &&& r matches Ok(None)
                &&& final(self).done() == old(self).done()
                &&& final(self).reported_tenth() == old(self).reported_tenth()
            },
            r matches Ok(None) ==> old(self).done() >= old(self).entries().len(),
            ({
                let i = old(self).done() as int;
                let e = old(self).entries()[i];
                i < old(self).entries().len() ==> (e.1 is None <==> !(r matches Err(
                    UnpackError::Entry(_),
                )))
            }),
            ({
                let i = old(self).done() as int;
                let e = old(self).entries()[i];
                r matches Err(UnpackError::Entry(m)) ==> i < old(self).entries().len() && (e.1
                    matches Some(cause) && m@ == failure_prefix(Failure::ReadEntry) + cause
                    + failure_advice(Failure::ReadEntry))
            }),
            ({
                let i = old(self).done() as int;
                let e = old(self).entries()[i];
                r matches Err(UnpackError::Content(h, m)) ==> {
                    &&& i < old(self).entries().len()
                    &&& e.1 is None
                    &&& header_of(e, h)
                    &&& h.safe_name is Some
                    &&& !h.is_dir
                    &&& e.2 matches Err(c) && c == m@
                }
            }),
            r matches Ok(Some(step)) ==> {
                &&& final(self).done() == old(self).done() + 1
                &&& step_for_entry(
                    old(self).entries(),
                    old(self).done() as int,
                    old(self).reported_tenth(),
                    step,
                    final(self).reported_tenth(),
                )
            },
    {
        let total = archive_len(&self.archive);
        if self.next >= total {
            return Ok(None);
        }
        let i = self.next;
        let entry = match entry_header(&mut self.archive, i) {
            Ok(entry) => entry,
            Err(cause) => {
                return Err(UnpackError::Entry(failure_message(Failure::ReadEntry, cause.as_str())));
            },
        };
        self.next = i + 1;
        let action = match entry_action(entry.safe_name.clone(), entry.is_dir) {
            EntryAction::Skip => Unpack::Skip,
            EntryAction::CreateDir(rel) => Unpack::CreateDir(rel),
            EntryAction::WriteFile(rel) => {
                let data = match entry_content(&mut self.archive, i) {
                    Ok(data) => data,
                    Err(ContentFailure::Entry(cause)) => {
                        return Err(
                            UnpackError::Entry(failure_message(Failure::ReadEntry, cause.as_str())),
                        );
                    },
                    Err(ContentFailure::Data(cause)) => {
                        return Err(UnpackError::Content(entry, cause));
                    },
                };
                Unpack::WriteFile(rel, data)
            },
        };
        let mut status: Option<String> = None;
        let done: u64 = (i + 1) as u64;
        let count: u64 = total as u64;
        if let Some(pct) = progress_report(done, count, self.last_tenth) {
            self.last_tenth = pct / 10;
            status = Some(unpack_status(pct));
        }
        Ok(Some(UnpackStep { entry, action, status }))
    }
}

/// Unpacking reads nothing but the payload: two unpackers opened on the
/// same payload bytes hold the same entries.
pub proof fn lemma_same_payload_same_entries(payload: Seq<u8>, first: Unpacker, second: Unpacker)
    requires
        zip_entries(payload) matches Ok(es) && es == first.entries(),
        zip_entries(payload) matches Ok(es) && es == second.entries(),
    ensures
        first.entries() == second.entries(),
{
}

/// No step leaves the runtime: a step that creates or writes an entry whose
/// name is a plain relative name does so only where that name stays inside
/// the runtime; one that climbs above it is always left out.
pub proof fn lemma_steps_stay_inside(
    entries: Seq<(Seq<char>, Option<Seq<char>>, Result<Seq<u8>, Seq<char>>)>,
    i: int,
    last: nat,
    step: UnpackStep,
    last_after: nat,
)
    requires
        step_for_entry(entries, i, last, step, last_after),
        plain_relative(entries[i].0),
    ensures
        !(step.action is Skip) ==> stays_inside(entries[i].0),
        !stays_inside(entries[i].0) ==> step.action is Skip,
{
}

} // verus!
