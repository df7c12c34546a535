//! The sing-box program: where it may be found, and how a release is unpacked.
use crate::classify::StartError;
use crate::text;
use crate::text::{has_suffix, occurs};
use vstd::prelude::*;
use vstd::string::*;
use vstd::utf8::{encode_utf8, valid_utf8};

verus! {

/// The release in use. Later ones may read another configuration format.
pub const PINNED_VERSION: &'static str = "1.13.19";

/// File name of the program.
pub const BINARY_NAME: &'static str = "sing-box.exe";

/// What downloads introduce themselves as.
pub const USER_AGENT: &'static str = "stls";

/// A place where the program may be found.
#[derive(Debug, Clone, Copy, PartialEq, Eq, Structural)]
pub enum Place {
    /// Next to this application.
    ExeDir,
    /// In its directory `resources`.
    ExeResources,
    /// In its directory `bin`.
    ExeBin,
    /// In `bin` under the working directory.
    WorkBin,
    /// In the working directory.
    WorkDir,
    /// In the settings directory, where downloads are kept.
    ConfigDir,
}

/// The places to look at, in order. Those next to this application are left
/// out where its path is not known.
pub open spec fn search_order(exe_known: bool) -> Seq<Place> {
    let near: Seq<Place> = if exe_known {
        seq![Place::ExeDir, Place::ExeResources, Place::ExeBin]
    } else {
        seq![]
    };
    near + seq![Place::WorkBin, Place::WorkDir, Place::ConfigDir]
}

/// The places to look at, in order.
pub fn search_places(exe_known: bool) -> (r: Vec<Place>)
    ensures
        r@ == search_order(exe_known),
{
    let mut r: Vec<Place> = Vec::new();
    if exe_known {
        r.push(Place::ExeDir);
        r.push(Place::ExeResources);
        r.push(Place::ExeBin);
    }
    r.push(Place::WorkBin);
    r.push(Place::WorkDir);
    r.push(Place::ConfigDir);
    proof {
        assert(r@ =~= search_order(exe_known));
    }
    r
}

/// `r` is the first place at which the program was found.
pub open spec fn finds_first(found: Seq<bool>, r: Option<usize>) -> bool {
    match r {
        Some(i) => i < found.len() && found[i as int] && forall|j: int|
            0 <= j < i ==> !#[trigger] found[j],
        None => forall|j: int| 0 <= j < found.len() ==> !#[trigger] found[j],
    }
}

/// The first place at which the program was found; `None` where it has to be
/// downloaded.
pub fn first_found(found: &Vec<bool>) -> (r: Option<usize>)
    ensures
        finds_first(found@, r),
{
    let mut i: usize = 0;
    while i < found.len()
        invariant
            i <= found.len(),
            forall|j: int| 0 <= j < i ==> !#[trigger] found@[j],
        decreases found.len() - i,
    {
        if found[i] {
            return Some(i);
        }
        i = i + 1;
    }
    None
}

/// The text that `String::from_utf8_lossy` makes of bytes.
pub uninterp spec fn lossy_text(bytes: Seq<u8>) -> Seq<char>;

/// `String::from_utf8_lossy`: the text of valid UTF-8; elsewhere what is
/// invalid is replaced, in a way that is not spelled out here.
#[verifier::external_body]
fn from_utf8_lossy(bytes: &[u8]) -> (r: String)
    ensures
        r@ == lossy_text(bytes@),
        valid_utf8(bytes@) ==> encode_utf8(r@) == bytes@,
{
    String::from_utf8_lossy(bytes).into_owned()
}

/// What a program reports as its version does not name the release in use.
pub open spec fn tells_other_version(version: Seq<char>) -> bool {
    !occurs(version, PINNED_VERSION@)
}

/// Whether a program that reports `version` is of another release.
pub fn is_other_version(version: &str) -> (r: bool)
    ensures
        r == tells_other_version(version@),
{
    let report: Vec<char> = text::chars_of(version);
    !text::contains(&report, PINNED_VERSION)
}

/// A downloaded program that printed `output` when asked for its version is to be
/// removed.
pub open spec fn is_stale_output(output: Option<Seq<u8>>) -> bool {
    match output {
        Some(bytes) => tells_other_version(lossy_text(bytes)),
        None => false,
    }
}

/// Whether a downloaded program that printed `output` when asked for its version
/// is to be removed. One that cannot be asked is kept.
pub fn is_stale(output: Option<&[u8]>) -> (r: bool)
    ensures
        r == match output {
            Some(bytes) => is_stale_output(Some(bytes@)),
            None => is_stale_output(None),
        },
{
    match output {
        Some(bytes) => is_other_version(from_utf8_lossy(bytes).as_str()),
        None => false,
    }
}

/// The address that the release in use is downloaded from.
pub open spec fn release_address() -> Seq<char> {
    "https://github.com/SagerNet/sing-box/releases/download/v"@ + PINNED_VERSION@ + "/sing-box-"@
        + PINNED_VERSION@ + "-windows-amd64.zip"@
}

/// The address that the release in use is downloaded from.
pub fn release_url() -> (r: String)
    ensures
        r@ == release_address(),
{
    "https://github.com/SagerNet/sing-box/releases/download/v".to_string().concat(
        PINNED_VERSION,
    ).concat("/sing-box-").concat(PINNED_VERSION).concat("-windows-amd64.zip")
}

// ── unpacking ──────────────────────────────────────────────────────

/// `std::io::Cursor`, opaque to the verifier.
#[verifier::external_type_specification]
#[verifier::external_body]
#[verifier::reject_recursive_types(T)]
pub struct ExCursor<T>(std::io::Cursor<T>);

/// `zip::ZipArchive`, opaque to the verifier.
#[verifier::external_type_specification]
#[verifier::external_body]
#[verifier::reject_recursive_types(R)]
pub struct ExZipArchive<R>(zip::ZipArchive<R>);

/// The bytes that an archive was opened on.
pub uninterp spec fn archive_bytes(a: zip::ZipArchive<std::io::Cursor<Vec<u8>>>) -> Seq<u8>;

/// Why `ZipArchive::new` does not accept these bytes: the error's own text, and
/// that of its whole chain of causes. `None` where it accepts them.
pub uninterp spec fn zip_refusal(bytes: Seq<u8>) -> Option<(Seq<char>, Seq<char>)>;

/// The number of entries, as `ZipArchive::len` counts them.
pub uninterp spec fn zip_len(bytes: Seq<u8>) -> nat;

/// The name of the entry `i`, as `ZipArchive::by_index` finds it, or the texts of
/// the error that it reports.
pub uninterp spec fn zip_entry_name(bytes: Seq<u8>, i: nat) -> Result<
    Seq<char>,
    (Seq<char>, Seq<char>),
>;

/// What reading the entry `i` to its end gives, or the texts of the error that it
/// reports.
pub uninterp spec fn zip_entry_data(bytes: Seq<u8>, i: nat) -> Result<
    Seq<u8>,
    (Seq<char>, Seq<char>),
>;

/// The texts of a failure.
pub open spec fn texts_of(e: StartError) -> (Seq<char>, Seq<char>) {
    (e.message@, e.detail@)
}

/// `ZipArchive::new` on bytes in memory. An error is told by its own text and by
/// the text of its chain of causes, as `anyhow` writes it.
#[verifier::external_body]
fn open_archive(bytes: Vec<u8>) -> (r: Result<
    zip::ZipArchive<std::io::Cursor<Vec<u8>>>,
    StartError,
>)
    ensures
        match r {
            Ok(a) => zip_refusal(bytes@) is None && archive_bytes(a) == bytes@,
            Err(e) => zip_refusal(bytes@) == Some(texts_of(e)),
        },
{
    match zip::ZipArchive::new(std::io::Cursor::new(bytes)) {
        Ok(a) => Ok(a),
        Err(e) => Err(
            StartError {
                message: e.to_string(),
                detail: format!("{:#}", anyhow::Error::from(e)),
            },
        ),
    }
}

/// `ZipArchive::len`.
#[verifier::external_body]
fn entry_count(a: &zip::ZipArchive<std::io::Cursor<Vec<u8>>>) -> (r: usize)
    ensures
        r == zip_len(archive_bytes(*a)),
{
    a.len()
}

/// `ZipArchive::by_index` and the name of what it found. An error is told by its
/// own text and by the text of its chain of causes, as `anyhow` writes it.
#[verifier::external_body]
fn entry_name(a: &mut zip::ZipArchive<std::io::Cursor<Vec<u8>>>, i: usize) -> (r: Result<
    String,
    StartError,
>)
    ensures
        archive_bytes(*final(a)) == archive_bytes(*old(a)),
        match r {
            Ok(name) => zip_entry_name(archive_bytes(*old(a)), i as nat) == Ok::<
                Seq<char>,
                (Seq<char>, Seq<char>),
            >(name@),
            Err(e) => zip_entry_name(archive_bytes(*old(a)), i as nat) == Err::<
                Seq<char>,
                (Seq<char>, Seq<char>),
            >(texts_of(e)),
        },
{
    match a.by_index(i) {
        Ok(f) => Ok(f.name().to_string()),
        Err(e) => Err(
            StartError {
                message: e.to_string(),
                detail: format!("{:#}", anyhow::Error::from(e)),
            },
        ),
    }
}

/// `ZipArchive::by_index`, and `Read::read_to_end` on what it found. An error is
/// told by its own text and by the text of its chain of causes, as `anyhow` writes
/// it.
#[verifier::external_body]
fn entry_data(a: &mut zip::ZipArchive<std::io::Cursor<Vec<u8>>>, i: usize) -> (r: Result<
    Vec<u8>,
    StartError,
>)
    ensures
        archive_bytes(*final(a)) == archive_bytes(*old(a)),
        match r {
            Ok(data) => zip_entry_data(archive_bytes(*old(a)), i as nat) == Ok::<
                Seq<u8>,
                (Seq<char>, Seq<char>),
            >(data@),
            Err(e) => zip_entry_data(archive_bytes(*old(a)), i as nat) == Err::<
                Seq<u8>,
                (Seq<char>, Seq<char>),
            >(texts_of(e)),
        },
{
    let mut data: Vec<u8> = Vec::new();
    let read = match a.by_index(i) {
        Ok(mut f) => std::io::Read::read_to_end(&mut f, &mut data).map_err(anyhow::Error::from),
        Err(e) => Err(anyhow::Error::from(e)),
    };
    match read {
        Ok(_) => Ok(data),
        Err(e) => Err(StartError { message: e.to_string(), detail: format!("{:#}", e) }),
    }
}

/// What a release without the program is reported as.
pub const NOT_IN_RELEASE: &'static str = "sing-box.exe not found in release";

/// Why a release could not be unpacked.
pub enum UnpackError {
    /// It is no archive.
    Archive(StartError),
    /// One of its entries could not be opened.
    Entry(StartError),
    /// The program could not be read.
    Read(StartError),
    /// The program is not in it.
    Missing,
}

impl UnpackError {
    /// The texts of the failure.
    pub open spec fn texts(self) -> (Seq<char>, Seq<char>) {
        match self {
            UnpackError::Archive(c) => texts_of(c),
            UnpackError::Entry(c) => texts_of(c),
            UnpackError::Read(c) => texts_of(c),
            UnpackError::Missing => (NOT_IN_RELEASE@, NOT_IN_RELEASE@),
        }
    }

    /// The failure that it makes of a startup.
    pub fn into_start_error(self) -> (e: StartError)
        ensures
            texts_of(e) == self.texts(),
    {
        match self {
            UnpackError::Archive(c) => c,
            UnpackError::Entry(c) => c,
            UnpackError::Read(c) => c,
            UnpackError::Missing => StartError::new(NOT_IN_RELEASE.to_string()),
        }
    }
}

/// The entry is the program.
pub open spec fn is_binary(name: Seq<char>) -> bool {
    has_suffix(name, BINARY_NAME@)
}

/// Whether an entry with this name is the program.
pub fn is_binary_entry(name: &str) -> (r: bool)
    ensures
        r == is_binary(name@),
{
    text::ends_with(name, BINARY_NAME)
}

/// What the entries of a release come to. Failures are told by their texts.
pub enum Unpacked {
    Program(Seq<u8>),
    Unreadable((Seq<char>, Seq<char>)),
    BrokenEntry((Seq<char>, Seq<char>)),
    NotThere,
}

/// What the entries come to, from the entry `i` on. The first entry that is the
/// program decides; one that cannot be opened ahead of it fails the whole.
pub open spec fn unpacked(
    names: Seq<Result<Seq<char>, (Seq<char>, Seq<char>)>>,
    data: Seq<Result<Seq<u8>, (Seq<char>, Seq<char>)>>,
    i: nat,
) -> Unpacked
    decreases names.len() - i,
{
    if i >= names.len() {
        Unpacked::NotThere
    } else {
        match names[i as int] {
            Err(texts) => Unpacked::BrokenEntry(texts),
            Ok(name) => if is_binary(name) {
                match data[i as int] {
                    Ok(d) => Unpacked::Program(d),
                    Err(texts) => Unpacked::Unreadable(texts),
                }
            } else {
                unpacked(names, data, i + 1)
            },
        }
    }
}

/// The names of the entries of a release.
pub open spec fn release_names(bytes: Seq<u8>) -> Seq<
    Result<Seq<char>, (Seq<char>, Seq<char>)>,
> {
    Seq::new(zip_len(bytes), |i: int| zip_entry_name(bytes, i as nat))
}

/// The contents of the entries of a release.
pub open spec fn release_data(bytes: Seq<u8>) -> Seq<Result<Seq<u8>, (Seq<char>, Seq<char>)>> {
    Seq::new(zip_len(bytes), |i: int| zip_entry_data(bytes, i as nat))
}

/// The entry decides what a release comes to: it is the program, or it cannot be
/// opened.
pub open spec fn decides(name: Result<Seq<char>, (Seq<char>, Seq<char>)>) -> bool {
    match name {
        Ok(n) => is_binary(n),
        Err(_) => true,
    }
}

/// The name of an entry, as contracts speak of it.
pub open spec fn name_of(name: Result<String, StartError>) -> Result<
    Seq<char>,
    (Seq<char>, Seq<char>),
> {
    match name {
        Ok(t) => Ok(t@),
        Err(e) => Err(texts_of(e)),
    }
}

/// The names of entries, as contracts speak of them.
pub open spec fn names_of(names: Seq<Result<String, StartError>>) -> Seq<
    Result<Seq<char>, (Seq<char>, Seq<char>)>,
> {
    names.map_values(|n: Result<String, StartError>| name_of(n))
}

/// The first entry that decides, among entries with these names; an error stands
/// for one that cannot be opened.
pub fn deciding_entry(names: &Vec<Result<String, StartError>>) -> (r: Option<usize>)
    ensures
        match r {
            Some(i) => i < names@.len() && decides(names_of(names@)[i as int]) && forall|j: int|
                0 <= j < i ==> !decides(#[trigger] names_of(names@)[j]),
            None => forall|j: int|
                0 <= j < names@.len() ==> !decides(#[trigger] names_of(names@)[j]),
        },
{
    let mut i: usize = 0;
    while i < names.len()
        invariant
            i <= names.len(),
            forall|j: int| 0 <= j < i ==> !decides(#[trigger] names_of(names@)[j]),
        decreases names.len() - i,
    {
        match &names[i] {
            Ok(name) => if is_binary_entry(name.as_str()) {
                return Some(i);
            },
            Err(_) => return Some(i),
        }
        i = i + 1;
    }
    None
}

/// Entries that do not decide can be passed over.
proof fn lemma_passed_over(
    names: Seq<Result<Seq<char>, (Seq<char>, Seq<char>)>>,
    data: Seq<Result<Seq<u8>, (Seq<char>, Seq<char>)>>,
    i: nat,
)
    requires
        i <= names.len(),
        forall|j: int| 0 <= j < i ==> !decides(#[trigger] names[j]),
    ensures
        unpacked(names, data, 0) == unpacked(names, data, i),
    decreases i,
{
    if i > 0 {
        lemma_passed_over(names, data, (i - 1) as nat);
        assert(!decides(names[i - 1]));
    }
}

/// What unpacking a release comes to.
pub open spec fn unpacks(bytes: Seq<u8>, r: Result<Vec<u8>, UnpackError>) -> bool {
    match zip_refusal(bytes) {
        Some(texts) => r matches Err(UnpackError::Archive(e)) && texts_of(e) == texts,
        None => match unpacked(release_names(bytes), release_data(bytes), 0) {
            Unpacked::Program(d) => r matches Ok(data) && data@ == d,
            Unpacked::Unreadable(texts) => r matches Err(UnpackError::Read(e)) && texts_of(e)
                == texts,
            Unpacked::BrokenEntry(texts) => r matches Err(UnpackError::Entry(e)) && texts_of(e)
                == texts,
            Unpacked::NotThere => r matches Err(UnpackError::Missing),
        },
    }
}

/// The program out of a downloaded release.
pub fn unpack_release(bytes: Vec<u8>) -> (r: Result<Vec<u8>, UnpackError>)
    ensures
        unpacks(bytes@, r),
{
    let ghost all = bytes@;
    let mut archive = match open_archive(bytes) {
        Ok(a) => a,
        Err(e) => return Err(UnpackError::Archive(e)),
    };
    let count: usize = entry_count(&archive);
    let mut names: Vec<Result<String, StartError>> = Vec::new();
    let mut i: usize = 0;
    while i < count
        invariant
            i <= count,
            count == zip_len(all),
            archive_bytes(archive) == all,
            names@.len() == i,
            names_of(names@) == release_names(all).take(i as int),
        decreases count - i,
    {
        let ghost before = names@;
        names.push(entry_name(&mut archive, i));
        proof {
            let next = release_names(all)[i as int];
            assert(names_of(names@) =~= names_of(before).push(next));
            assert(release_names(all).take(i + 1) =~= release_names(all).take(i as int).push(next));
        }
        i = i + 1;
    }
    proof {
        assert(release_names(all).take(count as int) =~= release_names(all));
    }
    match deciding_entry(&names) {
        Some(k) => {
            proof {
                lemma_passed_over(release_names(all), release_data(all), k as nat);
                assert(names_of(names@)[k as int] == name_of(names@[k as int]));
            }
            match names.remove(k) {
                Ok(_) => match entry_data(&mut archive, k) {
                    Ok(data) => Ok(data),
                    Err(e) => Err(UnpackError::Read(e)),
                },
                Err(e) => Err(UnpackError::Entry(e)),
            }
        },
        None => {
            proof {
                lemma_passed_over(release_names(all), release_data(all), count as nat);
            }
            Err(UnpackError::Missing)
        },
    }
}

}
