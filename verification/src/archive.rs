//! Zip archives: reading the entries and planning what to write where.

use crate::error::CacheError;
use crate::paths::{join, join_path};
use crate::platform::Platform;
use std::io::Cursor;
use std::io::Read;
use vstd::prelude::*;
use zip::result::ZipError;
use zip::ZipArchive;

verus! {

/// The Zip reader of the `zip` crate, carried as an opaque value.
#[verifier::external_type_specification]
#[verifier::external_body]
#[verifier::reject_recursive_types(R)]
pub struct ExZipArchive<R>(ZipArchive<R>);

/// The in-memory reader of the standard library, carried as an opaque value.
#[verifier::external_type_specification]
#[verifier::external_body]
#[verifier::reject_recursive_types(T)]
pub struct ExCursor<T>(Cursor<T>);

/// The error of the `zip` crate, carried as an opaque value.
#[verifier::external_type_specification]
#[verifier::external_body]
pub struct ExZipError(ZipError);

/// One entry of an archive, as read out of it.
pub struct ZipEntry {
    /// The entry's name as the archive records it.
    pub name: String,
    /// Whether the entry stands for a directory.
    pub is_dir: bool,
    /// The Unix mode recorded for the entry, if any.
    pub unix_mode: Option<u32>,
    /// The entry's uncompressed contents.
    pub data: Vec<u8>,
}

/// The mathematical content of a `ZipEntry`.
pub struct EntryView {
    pub name: Seq<char>,
    pub is_dir: bool,
    pub unix_mode: Option<u32>,
    pub data: Seq<u8>,
}

impl View for ZipEntry {
    type V = EntryView;

    open spec fn view(&self) -> EntryView {
        EntryView {
            name: self.name@,
            is_dir: self.is_dir,
            unix_mode: self.unix_mode,
            data: self.data@,
        }
    }
}

/// One filesystem operation of an extraction.
#[derive(Debug)]
pub enum ExtractStep {
    /// Create the directory and all its ancestors.
    CreateDir { path: String },
    /// Create the file's parent directories as needed, write the contents,
    /// then apply the mode where one is given.
    WriteFile { path: String, data: Vec<u8>, mode: Option<u32> },
}

/// The mathematical content of an `ExtractStep`.
pub enum StepView {
    CreateDir { path: Seq<char> },
    WriteFile { path: Seq<char>, data: Seq<u8>, mode: Option<u32> },
}

impl View for ExtractStep {
    type V = StepView;

    open spec fn view(&self) -> StepView {
        match self {
            ExtractStep::CreateDir { path } => StepView::CreateDir { path: path@ },
            ExtractStep::WriteFile { path, data, mode } => StepView::WriteFile {
                path: path@,
                data: data@,
                mode: *mode,
            },
        }
    }
}

/// The steps that unpack an archive, in archive order, and the failure that
/// cut them short, if any. The steps before a failure are still to be
/// performed: extraction is not all-or-nothing.
#[derive(Debug)]
pub struct ZipPlan {
    pub steps: Vec<ExtractStep>,
    pub failure: Option<CacheError>,
}

/// What reading each entry of an open archive yields, by index: the entry, or
/// nothing where it cannot be read.
pub uninterp spec fn entries_of(archive: ZipArchive<Cursor<Vec<u8>>>) -> Seq<Option<EntryView>>;

/// What opening a byte string as a Zip archive yields: the readable and
/// unreadable entries by index, or nothing where the bytes are no archive.
pub uninterp spec fn zip_directory(bytes: Seq<u8>) -> Option<Seq<Option<EntryView>>>;

/// Whether a recorded name marks a directory: it ends in `/` or `\`.
pub open spec fn names_directory(name: Seq<char>) -> bool {
    name.len() > 0 && (name.last() == '/' || name.last() == '\\')
}

/// Calls `zip::ZipArchive::new` on an in-memory reader over the bytes. It
/// succeeds exactly when the bytes hold a central directory that the crate
/// accepts, and the archive then holds what that directory lists.
#[verifier::external_body]
fn open_archive(bytes: Vec<u8>) -> (opened: Result<ZipArchive<Cursor<Vec<u8>>>, ZipError>)
    ensures
        match opened {
            Ok(archive) => zip_directory(bytes@) == Some(entries_of(archive)),
            Err(_) => zip_directory(bytes@) is None,
        },
{
    ZipArchive::new(Cursor::new(bytes))
}

/// Calls `zip::ZipArchive::len`: the number of entries in the archive.
#[verifier::external_body]
fn archive_len(archive: &ZipArchive<Cursor<Vec<u8>>>) -> (count: usize)
    ensures
        count == entries_of(*archive).len(),
{
    archive.len()
}

/// Calls `zip::ZipArchive::by_index` and reads the file it returns to its
/// end, copying out name, directory flag, Unix mode and contents. The
/// archive's entries stay as they were. The directory flag is set exactly
/// for names that end in `/` or `\`.
#[verifier::external_body]
fn read_entry(archive: &mut ZipArchive<Cursor<Vec<u8>>>, index: usize) -> (read: Result<
    ZipEntry,
    ZipError,
>)
    ensures
        entries_of(*final(archive)) == entries_of(*old(archive)),
        match read {
            Ok(entry) => {
                &&& index < entries_of(*old(archive)).len()
                &&& entries_of(*old(archive))[index as int] == Some(entry@)
                &&& entry.is_dir == names_directory(entry.name@)
            },
            Err(_) => index < entries_of(*old(archive)).len() ==> entries_of(
                *old(archive),
            )[index as int] is None,
        },
{
    let mut file = archive.by_index(index)?;
    let mut data = Vec::new();
    file.read_to_end(&mut data)?;
    Ok(ZipEntry {
        name: file.name().to_string(),
        is_dir: file.is_dir(),
        unix_mode: file.unix_mode(),
        data,
    })
}

/// Calls `to_string` on a `zip` error. Nothing is claimed about the text.
#[verifier::external_body]
fn describe_zip_error(error: &ZipError) -> (text: String) {
    error.to_string()
}

/// The step that unpacks one entry below `target`: a directory entry creates
/// its directory; a file entry writes its contents, with the recorded mode
/// where the platform applies permission bits.
pub open spec fn step_for(entry: EntryView, target: Seq<char>, platform: Platform) -> StepView {
    let path = join_path(target, entry.name);
    if entry.is_dir {
        StepView::CreateDir { path }
    } else {
        StepView::WriteFile {
            path,
            data: entry.data,
            mode: if platform.sets_permissions() {
                entry.unix_mode
            } else {
                None
            },
        }
    }
}

/// A byte string has one plan only.
pub proof fn lemma_plan_unique(
    bytes: Seq<u8>,
    target: Seq<char>,
    platform: Platform,
    steps1: Seq<StepView>,
    failed1: bool,
    steps2: Seq<StepView>,
    failed2: bool,
)
    requires
        is_plan_for(bytes, target, platform, steps1, failed1),
        is_plan_for(bytes, target, platform, steps2, failed2),
    ensures
        steps1 == steps2,
        failed1 == failed2,
{
    match zip_directory(bytes) {
        None => {
            assert(steps1 =~= steps2);
        },
        Some(entries) => {
            if steps1.len() < steps2.len() {
                assert(entries[steps1.len() as int] is Some) by {
                    let _ = steps2[steps1.len() as int];
                }
            }
            if steps2.len() < steps1.len() {
                assert(entries[steps2.len() as int] is Some) by {
                    let _ = steps1[steps2.len() as int];
                }
            }
            assert(steps1 =~= steps2);
        },
    }
}

/// The step that unpacks one entry below `target_dir`.
pub fn step_for_entry(entry: ZipEntry, target_dir: &str, platform: Platform) -> (step: ExtractStep)
    ensures
        step@ == step_for(entry@, target_dir@, platform),
{
    let path = join(target_dir, entry.name.as_str());
    if entry.is_dir {
        ExtractStep::CreateDir { path }
    } else {
        let mode = if platform.sets_permissions() {
            entry.unix_mode
        } else {
            None
        };
        ExtractStep::WriteFile { path, data: entry.data, mode }
    }
}

/// The mathematical content of a list of steps.
pub open spec fn steps_view(steps: Seq<ExtractStep>) -> Seq<StepView> {
    steps.map_values(|step: ExtractStep| step@)
}

/// `steps` and `failed` are the plan for unpacking `bytes` below `target`.
///
/// Bytes that are no archive give no steps and fail. Otherwise each entry
/// gives its step, in archive order, up to the first entry that cannot be
/// read; the plan fails exactly when there is such an entry.
pub open spec fn is_plan_for(
    bytes: Seq<u8>,
    target: Seq<char>,
    platform: Platform,
    steps: Seq<StepView>,
    failed: bool,
) -> bool {
    match zip_directory(bytes) {
        None => steps.len() == 0 && failed,
        Some(entries) => {
            &&& steps.len() <= entries.len()
            &&& forall|i: int|
                0 <= i < steps.len() ==> entries[i] is Some && #[trigger] steps[i] == step_for(
                    entries[i].unwrap(),
                    target,
                    platform,
                )
            &&& failed <==> steps.len() < entries.len()
            &&& failed ==> entries[steps.len() as int] is None
        },
    }
}

/// Plans the extraction of a Zip archive, held as bytes, into `target_dir`.
///
/// Every entry becomes one step, in archive order, up to the first entry
/// that cannot be read. Bytes that are no archive give no steps. A failure
/// of either kind is reported as an extraction error.
pub fn plan_zip_extraction(bytes: Vec<u8>, target_dir: &str, platform: Platform) -> (plan: ZipPlan)
    ensures
        is_plan_for(bytes@, target_dir@, platform, steps_view(plan.steps@), plan.failure is Some),
        plan.failure matches Some(error) ==> error is Extraction,
{
    let mut steps: Vec<ExtractStep> = Vec::new();
    let mut archive = match open_archive(bytes) {
        Ok(archive) => archive,
        Err(error) => {
            let text = describe_zip_error(&error);
            return ZipPlan { steps, failure: Some(CacheError::Extraction(text)) };
        },
    };
    let ghost entries = entries_of(archive);
    let count = archive_len(&archive);
    let mut index: usize = 0;
    while index < count
        invariant
            zip_directory(bytes@) == Some(entries),
            entries_of(archive) == entries,
            count == entries.len(),
            index <= count,
            steps@.len() == index,
            forall|i: int|
                0 <= i < index ==> entries[i] is Some && #[trigger] steps_view(steps@)[i]
                    == step_for(entries[i].unwrap(), target_dir@, platform),
        decreases count - index,
    {
        match read_entry(&mut archive, index) {
            Ok(entry) => {
                let ghost before = steps@;
                let step = step_for_entry(entry, target_dir, platform);
                steps.push(step);
                assert forall|i: int| 0 <= i < index implies #[trigger] steps_view(steps@)[i]
                    == steps_view(before)[i] by {
                    assert(steps@[i] == before[i]);
                }
            },
            Err(error) => {
                let text = describe_zip_error(&error);
                return ZipPlan { steps, failure: Some(CacheError::Extraction(text)) };
            },
        }
        index += 1;
    }
    ZipPlan { steps, failure: None }
}

} // verus!
