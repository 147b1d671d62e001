//! The offline image cache: where a project's page images are kept, how
//! their files are named, which of them still have to be fetched, and what the
//! cache reports of itself.
//!
//! Nothing here touches the disk or the network. Each function takes what the
//! application has read as plain values and returns what it is to do next.

use vstd::prelude::*;
use crate::text::{
    chars_contain, chars_end_with, contains, decimal, ends_with, has_no, is_last_index_of,
    lemma_decimal_injective, prefixed, str_chars, str_eq, u64_to_string,
};

pub mod disk;
pub mod manager;
pub mod reader;
pub mod scheduler;

verus! {

/// How often a failed fetch of one file is tried again.
pub const MAX_RETRIES: usize = 2;

/// How many fetches may run at the same time.
pub const CONCURRENT_DOWNLOADS: usize = 5;

/// The pause before a failed fetch is tried again, in milliseconds.
pub const RETRY_DELAY_MS: u64 = 500;

/// One remote file of a project. Its place in the list of a project's files is
/// its index, and the index is the stem of its file name in the cache.
#[derive(Debug)]
pub struct FileDownloadInfo {
    pub url: String,
}

/// A cached image as the front end displays it.
#[derive(Debug)]
pub struct CachedFileData {
    pub b64: String,
    pub content_type: String,
}

/// The text `.ext`.
pub open spec fn dotted(ext: Seq<char>) -> Seq<char> {
    seq!['.'] + ext
}

/// The URL ends in `.ext`, or holds `.ext?`: the extension stands at the end of
/// the path, before a query.
pub open spec fn names_extension(url: Seq<char>, ext: Seq<char>) -> bool {
    ends_with(url, dotted(ext)) || contains(url, dotted(ext).push('?'))
}

/// The extension under which the file behind `url` is cached: the first of
/// `png`, `jpg`, `jpeg`, `webp` that the URL names, and `jpg` if it names none.
pub open spec fn extension_of(url: Seq<char>) -> Seq<char> {
    if names_extension(url, "png"@) {
        "png"@
    } else if names_extension(url, "jpg"@) {
        "jpg"@
    } else if names_extension(url, "jpeg"@) {
        "jpeg"@
    } else if names_extension(url, "webp"@) {
        "webp"@
    } else {
        "jpg"@
    }
}

/// The MIME type served for a cached file with extension `ext`: `image/png`
/// for `png`, `image/webp` for `webp`, and `image/jpeg` for `jpg`, `jpeg` and
/// everything else.
pub open spec fn content_type_of(ext: Seq<char>) -> Seq<char> {
    if ext == "png"@ {
        "image/png"@
    } else if ext == "webp"@ {
        "image/webp"@
    } else {
        "image/jpeg"@
    }
}

/// The directory of a project's images: `<data_dir>/images/<project_id>`.
pub open spec fn cache_dir_of(data_dir: Seq<char>, project_id: Seq<char>) -> Seq<char> {
    data_dir + "/images/"@ + project_id
}

/// The name of the cached file with index `index` that was fetched from `url`:
/// `<index>.<ext>`, the index in decimal.
pub open spec fn file_name_of(index: nat, url: Seq<char>) -> Seq<char> {
    decimal(index) + dotted(extension_of(url))
}

/// Whether `url` names the extension `ext`, given `ext` with its dot and with
/// dot and question mark.
fn url_names(url: &Vec<char>, dot_ext: &str, dot_ext_query: &str) -> (r: bool)
    ensures
        r == (ends_with(url@, dot_ext@) || contains(url@, dot_ext_query@)),
{
    let suffix = str_chars(dot_ext);
    if chars_end_with(url, &suffix) {
        return true;
    }
    let infix = str_chars(dot_ext_query);
    chars_contain(url, &infix)
}

/// The four extensions and their dotted forms, as sequences of characters.
proof fn lemma_extension_texts()
    ensures
        ".png"@ == dotted("png"@),
        ".png?"@ == dotted("png"@).push('?'),
        ".jpg"@ == dotted("jpg"@),
        ".jpg?"@ == dotted("jpg"@).push('?'),
        ".jpeg"@ == dotted("jpeg"@),
        ".jpeg?"@ == dotted("jpeg"@).push('?'),
        ".webp"@ == dotted("webp"@),
        ".webp?"@ == dotted("webp"@).push('?'),
        "png"@ == seq!['p', 'n', 'g'],
        "jpg"@ == seq!['j', 'p', 'g'],
        "jpeg"@ == seq!['j', 'p', 'e', 'g'],
        "webp"@ == seq!['w', 'e', 'b', 'p'],
{
    reveal_strlit("png");
    reveal_strlit(".png");
    reveal_strlit(".png?");
    reveal_strlit("jpg");
    reveal_strlit(".jpg");
    reveal_strlit(".jpg?");
    reveal_strlit("jpeg");
    reveal_strlit(".jpeg");
    reveal_strlit(".jpeg?");
    reveal_strlit("webp");
    reveal_strlit(".webp");
    reveal_strlit(".webp?");
    assert(".png"@ =~= dotted("png"@));
    assert(".png?"@ =~= dotted("png"@).push('?'));
    assert(".jpg"@ =~= dotted("jpg"@));
    assert(".jpg?"@ =~= dotted("jpg"@).push('?'));
    assert(".jpeg"@ =~= dotted("jpeg"@));
    assert(".jpeg?"@ =~= dotted("jpeg"@).push('?'));
    assert(".webp"@ =~= dotted("webp"@));
    assert(".webp?"@ =~= dotted("webp"@).push('?'));
    assert("png"@ =~= seq!['p', 'n', 'g']);
    assert("jpg"@ =~= seq!['j', 'p', 'g']);
    assert("jpeg"@ =~= seq!['j', 'p', 'e', 'g']);
    assert("webp"@ =~= seq!['w', 'e', 'b', 'p']);
}

/// The extension under which the file behind `url` is cached. It is read off
/// the URL's text before anything is fetched; the content is never looked at.
pub fn get_extension(url: &str) -> (ext: &'static str)
    ensures
        ext@ == extension_of(url@),
{
    proof {
        lemma_extension_texts();
    }
    let chars = str_chars(url);
    if url_names(&chars, ".png", ".png?") {
        "png"
    } else if url_names(&chars, ".jpg", ".jpg?") {
        "jpg"
    } else if url_names(&chars, ".jpeg", ".jpeg?") {
        "jpeg"
    } else if url_names(&chars, ".webp", ".webp?") {
        "webp"
    } else {
        "jpg"
    }
}

/// The MIME type served for a cached file with extension `ext`.
pub fn get_content_type(ext: &str) -> (content_type: String)
    ensures
        content_type@ == content_type_of(ext@),
{
    if str_eq(ext, "png") {
        String::from_str("image/png")
    } else if str_eq(ext, "webp") {
        String::from_str("image/webp")
    } else {
        String::from_str("image/jpeg")
    }
}

/// The directory of a project's images below the data directory. The project
/// id is taken as it is, as one path segment: nothing is checked or escaped.
pub fn get_cache_dir(data_dir: &str, project_id: &str) -> (dir: String)
    ensures
        dir@ == cache_dir_of(data_dir@, project_id@),
{
    let mut dir = String::from_str(data_dir);
    dir.append("/images/");
    dir.append(project_id);
    dir
}

/// The name of the cached file with index `index` that is fetched from `url`.
pub fn cached_file_name(index: usize, url: &str) -> (name: String)
    ensures
        name@ == file_name_of(index as nat, url@),
{
    let mut name = u64_to_string(index as u64);
    name.append(".");
    name.append(get_extension(url));
    proof {
        reveal_strlit(".");
        assert(name@ =~= file_name_of(index as nat, url@));
    }
    name
}

/// The extension of every cached file is one of the four known ones, so it
/// holds no dot.
pub proof fn lemma_extension_is_known(url: Seq<char>)
    ensures
        extension_of(url) == "png"@ || extension_of(url) == "jpg"@ || extension_of(url)
            == "jpeg"@ || extension_of(url) == "webp"@,
        has_no(extension_of(url), '.'),
        extension_of(url).len() >= 3,
{
    lemma_extension_texts();
}

/// How the extension is read off a URL. A URL that ends in `.png` or holds
/// `.png?` is cached as `png`. A URL that ends in `.jpg`, `.jpeg` or `.webp`,
/// or holds one of them before a question mark, is cached under that
/// extension, unless it names one that comes before it in the order `png`,
/// `jpg`, `jpeg`, `webp`. A URL that names none of the four is cached as
/// `jpg`.
pub proof fn lemma_extension_inference(url: Seq<char>)
    ensures
        ends_with(url, ".png"@) || contains(url, ".png?"@) ==> extension_of(url) == "png"@,
        (ends_with(url, ".jpg"@) || contains(url, ".jpg?"@)) && !names_extension(url, "png"@)
            ==> extension_of(url) == "jpg"@,
        (ends_with(url, ".jpeg"@) || contains(url, ".jpeg?"@)) && !names_extension(url, "png"@)
            && !names_extension(url, "jpg"@) ==> extension_of(url) == "jpeg"@,
        (ends_with(url, ".webp"@) || contains(url, ".webp?"@)) && !names_extension(url, "png"@)
            && !names_extension(url, "jpg"@) && !names_extension(url, "jpeg"@) ==> extension_of(
            url,
        ) == "webp"@,
        !names_extension(url, "png"@) && !names_extension(url, "jpg"@) && !names_extension(
            url,
            "jpeg"@,
        ) && !names_extension(url, "webp"@) ==> extension_of(url) == "jpg"@,
{
    lemma_extension_texts();
}

/// In a cached file's name the last dot stands right behind the index.
pub proof fn lemma_file_name_last_dot(index: nat, url: Seq<char>)
    ensures
        is_last_index_of(file_name_of(index, url), '.', decimal(index).len() as int),
        file_name_of(index, url).subrange(0, decimal(index).len() as int) == decimal(index),
        file_name_of(index, url).subrange(
            decimal(index).len() as int + 1,
            file_name_of(index, url).len() as int,
        ) == extension_of(url),
{
    lemma_extension_is_known(url);
    let name = file_name_of(index, url);
    let n = decimal(index).len() as int;
    assert(name[n] == '.');
    assert forall|j: int| n < j < name.len() implies name[j] != '.' by {
        assert(name[j] == extension_of(url)[j - n - 1]);
    }
    assert(name.subrange(0, n) =~= decimal(index));
    assert(name.subrange(n + 1, name.len() as int) =~= extension_of(url));
}

/// Files with different indices have different names, whatever their URLs:
/// no two fetches of one project write the same file.
pub proof fn lemma_file_names_distinct(i: nat, url_i: Seq<char>, j: nat, url_j: Seq<char>)
    requires
        i != j,
    ensures
        file_name_of(i, url_i) != file_name_of(j, url_j),
{
    if file_name_of(i, url_i) == file_name_of(j, url_j) {
        lemma_file_name_last_dot(i, url_i);
        lemma_file_name_last_dot(j, url_j);
        let name = file_name_of(i, url_i);
        let a = decimal(i).len() as int;
        let b = decimal(j).len() as int;
        assert(a == b) by {
            if a < b {
                assert(name[b] == '.');
            } else if b < a {
                assert(name[a] == '.');
            }
        }
        assert(decimal(i) == decimal(j));
        lemma_decimal_injective(i, j);
    }
}

/// What can go wrong in the cache. At the boundary to the front end an error
/// is handed over as its message.
#[derive(Debug)]
pub enum CacheError {
    /// The project's directory could not be created.
    CreateDir { cause: String },
    /// The project's directory could not be removed.
    RemoveDir { cause: String },
    /// The request for a file failed.
    Request { cause: String },
    /// The file for a fetched image could not be created.
    CreateFile { cause: String },
    /// The fetched bytes could not be written.
    WriteFile { cause: String },
    /// Every attempt to fetch the file with this index failed; `cause` is the
    /// message of the last failure.
    Exhausted { url: String, index: usize, cause: String },
    /// Some files of the project could not be fetched.
    PartialFailure,
    /// The project has no directory in the cache.
    DirMissing { dir: String },
    /// The project's directory could not be opened for listing.
    ReadDir { cause: String },
    /// Listing the project's directory broke off.
    WalkDir { cause: String },
    /// The cached file could not be read.
    ReadFile { cause: String },
    /// The project's directory holds no file with this index.
    NotFound { index: usize },
    /// No table of cache records is at hand.
    StoreUnavailable,
    /// The table of cache records failed; the message is its own.
    Store { message: String },
}

impl CacheError {
    /// The message of the error.
    pub open spec fn text(self) -> Seq<char> {
        match self {
            CacheError::CreateDir { cause } => "创建缓存目录失败: "@ + cause@,
            CacheError::RemoveDir { cause } => "删除缓存目录失败: "@ + cause@,
            CacheError::Request { cause } => "HTTP 请求失败: "@ + cause@,
            CacheError::CreateFile { cause } => "创建文件失败: "@ + cause@,
            CacheError::WriteFile { cause } => "写入文件失败: "@ + cause@,
            CacheError::Exhausted { url, index, cause } => "下载文件 "@ + url@ + " 失败（索引 "@
                + decimal(index as nat) + "）: "@ + cause@,
            CacheError::PartialFailure => "部分文件下载失败"@,
            CacheError::DirMissing { dir } => "缓存目录不存在: "@ + dir@,
            CacheError::ReadDir { cause } => "读取缓存目录失败: "@ + cause@,
            CacheError::WalkDir { cause } => "遍历缓存目录失败: "@ + cause@,
            CacheError::ReadFile { cause } => "读取缓存文件失败: "@ + cause@,
            CacheError::NotFound { index } => "缓存文件不存在: index "@ + decimal(index as nat),
            CacheError::StoreUnavailable => "LOCAL_STORAGE not initialized"@,
            CacheError::Store { message } => message@,
        }
    }

    /// The message of the error, as the front end gets it.
    pub fn message(&self) -> (m: String)
        ensures
            m@ == self.text(),
    {
        match self {
            CacheError::CreateDir { cause } => prefixed("创建缓存目录失败: ", cause.as_str()),
            CacheError::RemoveDir { cause } => prefixed("删除缓存目录失败: ", cause.as_str()),
            CacheError::Request { cause } => prefixed("HTTP 请求失败: ", cause.as_str()),
            CacheError::CreateFile { cause } => prefixed("创建文件失败: ", cause.as_str()),
            CacheError::WriteFile { cause } => prefixed("写入文件失败: ", cause.as_str()),
            CacheError::Exhausted { url, index, cause } => {
                let mut m = prefixed("下载文件 ", url.as_str());
                m.append(" 失败（索引 ");
                let digits = u64_to_string(*index as u64);
                m.append(digits.as_str());
                m.append("）: ");
                m.append(cause.as_str());
                m
            },
            CacheError::PartialFailure => String::from_str("部分文件下载失败"),
            CacheError::DirMissing { dir } => prefixed("缓存目录不存在: ", dir.as_str()),
            CacheError::ReadDir { cause } => prefixed("读取缓存目录失败: ", cause.as_str()),
            CacheError::WalkDir { cause } => prefixed("遍历缓存目录失败: ", cause.as_str()),
            CacheError::ReadFile { cause } => prefixed("读取缓存文件失败: ", cause.as_str()),
            CacheError::NotFound { index } => {
                let digits = u64_to_string(*index as u64);
                prefixed("缓存文件不存在: index ", digits.as_str())
            },
            CacheError::StoreUnavailable => String::from_str("LOCAL_STORAGE not initialized"),
            CacheError::Store { message } => message.clone(),
        }
    }
}

/// What follows an attempt to fetch a file.
#[derive(Debug)]
pub enum RetryStep {
    /// The file is on disk.
    Done,
    /// Wait this many milliseconds, then try again.
    RetryAfter { millis: u64 },
    /// Give up, with this error.
    GiveUp(CacheError),
}

/// The three kinds of step.
pub enum StepKind {
    Done,
    Retry,
    GiveUp,
}

/// The kind of step that follows attempt number `attempt`: none after a
/// success, another attempt while retries are left, and the end after that.
pub open spec fn step_after(attempt: nat, succeeded: bool) -> StepKind {
    if succeeded {
        StepKind::Done
    } else if attempt < MAX_RETRIES {
        StepKind::Retry
    } else {
        StepKind::GiveUp
    }
}

impl RetryStep {
    /// The kind of the step.
    pub open spec fn kind(self) -> StepKind {
        match self {
            RetryStep::Done => StepKind::Done,
            RetryStep::RetryAfter { .. } => StepKind::Retry,
            RetryStep::GiveUp(_) => StepKind::GiveUp,
        }
    }
}

/// Decides what follows an attempt to fetch the file with index `index` from
/// `url`. `attempt` counts the attempts made before this one, and `outcome`
/// says how this one ended. A failed attempt is followed by a pause and
/// another attempt until `MAX_RETRIES` retries are spent; the failure after
/// that is final and carries the message of the last cause.
pub fn download_file_with_retry(
    url: &str,
    index: usize,
    attempt: usize,
    outcome: Result<(), CacheError>,
) -> (step: RetryStep)
    ensures
        step.kind() == step_after(attempt as nat, outcome is Ok),
        step is RetryAfter ==> step == (RetryStep::RetryAfter { millis: RETRY_DELAY_MS }),
        outcome matches Err(e) ==> (attempt >= MAX_RETRIES ==> (step matches RetryStep::GiveUp(
            CacheError::Exhausted { url: u, index: i, cause },
        ) && u@ == url@ && i == index && cause@ == e.text())),
{
    match outcome {
        Ok(_) => RetryStep::Done,
        Err(e) => {
            if attempt < MAX_RETRIES {
                RetryStep::RetryAfter { millis: RETRY_DELAY_MS }
            } else {
                RetryStep::GiveUp(
                    CacheError::Exhausted {
                        url: String::from_str(url),
                        index,
                        cause: e.message(),
                    },
                )
            }
        },
    }
}

/// How the download of one file went.
pub struct RetryCourse {
    /// How many attempts were made.
    pub attempts: nat,
    /// How many pauses were made between them.
    pub delays: nat,
    /// Whether the last attempt succeeded.
    pub succeeded: bool,
}

/// Whether attempt number `k` succeeds, where `outcomes[k]` says how attempt
/// number `k` ends and an attempt beyond the list fails.
pub open spec fn succeeds_at(outcomes: Seq<bool>, k: nat) -> bool {
    k < outcomes.len() && outcomes[k as int]
}

/// The course of a download from its attempt number `attempt` on: what comes
/// of following `download_file_with_retry` step by step.
pub open spec fn course_from(attempt: nat, outcomes: Seq<bool>) -> RetryCourse
    decreases MAX_RETRIES + 1 - attempt,
{
    match step_after(attempt, succeeds_at(outcomes, attempt)) {
        StepKind::Done => RetryCourse { attempts: attempt + 1, delays: attempt, succeeded: true },
        StepKind::Retry => course_from(attempt + 1, outcomes),
        StepKind::GiveUp => RetryCourse {
            attempts: attempt + 1,
            delays: attempt,
            succeeded: false,
        },
    }
}

/// A download makes at most `MAX_RETRIES + 1` attempts, pauses once between
/// any two of them, and succeeds exactly if one of those attempts does; it
/// stops at the first attempt that succeeds.
pub proof fn lemma_retry_budget(outcomes: Seq<bool>)
    ensures
        1 <= course_from(0, outcomes).attempts <= MAX_RETRIES + 1,
        course_from(0, outcomes).delays + 1 == course_from(0, outcomes).attempts,
        course_from(0, outcomes).succeeded <==> exists|k: nat|
            k <= MAX_RETRIES && #[trigger] succeeds_at(outcomes, k),
        course_from(0, outcomes).succeeded ==> succeeds_at(
            outcomes,
            (course_from(0, outcomes).attempts - 1) as nat,
        ),
        forall|k: nat|
            k + 1 < course_from(0, outcomes).attempts ==> !#[trigger] succeeds_at(outcomes, k),
{
    reveal_with_fuel(course_from, 4);
    let c = course_from(0, outcomes);
    if c.succeeded {
        assert(succeeds_at(outcomes, (c.attempts - 1) as nat));
    }
}

/// A fetch that fails twice and then succeeds ends in success at the third
/// attempt, after two pauses.
pub proof fn lemma_third_attempt_succeeds(outcomes: Seq<bool>)
    requires
        !succeeds_at(outcomes, 0),
        !succeeds_at(outcomes, 1),
        succeeds_at(outcomes, 2),
    ensures
        course_from(0, outcomes) == (RetryCourse { attempts: 3, delays: 2, succeeded: true }),
{
    reveal_with_fuel(course_from, 4);
}

/// A fetch that always fails is given up after exactly three attempts.
pub proof fn lemma_always_failing_gives_up(outcomes: Seq<bool>)
    requires
        forall|k: nat| !#[trigger] succeeds_at(outcomes, k),
    ensures
        course_from(0, outcomes) == (RetryCourse { attempts: 3, delays: 2, succeeded: false }),
{
    reveal_with_fuel(course_from, 4);
    assert(!succeeds_at(outcomes, 0));
    assert(!succeeds_at(outcomes, 1));
    assert(!succeeds_at(outcomes, 2));
}

/// The names under which the files of a project are cached, by index.
pub fn expected_file_names(files: &Vec<FileDownloadInfo>) -> (names: Vec<String>)
    ensures
        names.len() == files.len(),
        forall|i: int|
            0 <= i < files.len() ==> (#[trigger] names[i])@ == file_name_of(
                i as nat,
                files[i].url@,
            ),
{
    let mut names: Vec<String> = Vec::new();
    let mut i: usize = 0;
    while i < files.len()
        invariant
            i <= files.len(),
            names.len() == i,
            forall|j: int|
                0 <= j < i ==> (#[trigger] names[j])@ == file_name_of(j as nat, files[j].url@),
        decreases files.len() - i,
    {
        names.push(cached_file_name(i, files[i].url.as_str()));
        i += 1;
    }
    names
}

} // verus!
