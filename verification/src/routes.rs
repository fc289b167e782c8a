//! Which experience to start: decided from the command line on the desktop
//! and from the page's location in the browser.

use vstd::prelude::*;
use vstd::string::StringSliceAdditionalSpecFns;

verus! {

/// The experience the application starts in.
#[derive(Clone, Copy, PartialEq, Eq, Debug, Hash, Structural)]
pub enum AppMode {
    /// The full experience, which is the default.
    FullExperience,
    /// The room that shows what the user uploads.
    UploadRoom,
}

impl Default for AppMode {
    fn default() -> (mode: Self)
        ensures
            mode == AppMode::FullExperience,
    {
        AppMode::FullExperience
    }
}

/// `needle` stands in `hay` at offset `at`.
pub open spec fn matches_at(hay: Seq<u8>, needle: Seq<u8>, at: int) -> bool {
    &&& 0 <= at
    &&& at + needle.len() <= hay.len()
    &&& hay.subrange(at, at + needle.len()) == needle
}

/// `needle` stands somewhere in `hay`.
pub open spec fn occurs_in(needle: Seq<u8>, hay: Seq<u8>) -> bool {
    exists|at: int| matches_at(hay, needle, at)
}

/// `hay` without the run of `byte` at its end.
pub open spec fn trim_end(hay: Seq<u8>, byte: u8) -> Seq<u8>
    decreases hay.len(),
{
    if hay.len() > 0 && hay.last() == byte {
        trim_end(hay.drop_last(), byte)
    } else {
        hay
    }
}

/// `hay` ends with `needle`.
pub open spec fn ends_with(hay: Seq<u8>, needle: Seq<u8>) -> bool {
    matches_at(hay, needle, hay.len() - needle.len())
}

/// Some argument is the flag `--upload`.
pub open spec fn upload_flag_given(args: Seq<String>) -> bool {
    exists|i: int| 0 <= i < args.len() && (#[trigger] args[i])@ == "--upload"@
}

/// The query string carries the path `/upload`, as left there by a redirect.
pub open spec fn query_names_upload(search: Seq<u8>) -> bool {
    ||| occurs_in("p=%2Fupload".spec_bytes(), search)
    ||| occurs_in("p=/upload".spec_bytes(), search)
}

/// The route remembered from an earlier page names `/upload`.
pub open spec fn route_names_upload(route: Seq<u8>) -> bool {
    occurs_in("/upload".spec_bytes(), route)
}

/// The path leads to `/upload`, with or without slashes after it.
pub open spec fn path_names_upload(pathname: Seq<u8>) -> bool {
    ends_with(trim_end(pathname, 47u8), "/upload".spec_bytes())
}

/// Some part of the location that could be read asks for the upload room.
pub open spec fn location_names_upload(
    search: Option<&str>,
    stored_route: Option<&str>,
    pathname: Option<&str>,
) -> bool {
    ||| search matches Some(s) && query_names_upload(s.spec_bytes())
    ||| stored_route matches Some(r) && route_names_upload(r.spec_bytes())
    ||| pathname matches Some(p) && path_names_upload(p.spec_bytes())
}

fn found_at(hay: &[u8], needle: &[u8], at: usize) -> (found: bool)
    requires
        at + needle.len() <= hay.len(),
    ensures
        found == matches_at(hay@, needle@, at as int),
{
    let mut k: usize = 0;
    while k < needle.len()
        invariant
            k <= needle.len(),
            at + needle.len() <= hay.len(),
            forall|j: int| 0 <= j < k ==> hay@[at + j] == needle@[j],
        decreases needle.len() - k,
    {
        if hay[at + k] != needle[k] {
            assert(hay@.subrange(at as int, at + needle.len())[k as int] == hay@[at + k]);
            return false;
        }
        k += 1;
    }
    assert(hay@.subrange(at as int, at + needle.len()) == needle@);
    true
}

fn contains(hay: &[u8], needle: &[u8]) -> (found: bool)
    ensures
        found == occurs_in(needle@, hay@),
{
    if needle.len() > hay.len() {
        return false;
    }
    let last: usize = hay.len() - needle.len();
    let mut at: usize = 0;
    while at < last
        invariant
            at <= last,
            last == hay.len() - needle.len(),
            forall|i: int| 0 <= i < at ==> !matches_at(hay@, needle@, i),
        decreases last - at,
    {
        if found_at(hay, needle, at) {
            return true;
        }
        at += 1;
    }
    found_at(hay, needle, last)
}

fn trimmed_len(hay: &[u8], byte: u8) -> (end: usize)
    ensures
        end <= hay.len(),
        hay@.subrange(0, end as int) == trim_end(hay@, byte),
{
    let mut end: usize = hay.len();
    assert(hay@.subrange(0, end as int) == hay@);
    while end > 0 && hay[end - 1] == byte
        invariant
            end <= hay.len(),
            trim_end(hay@.subrange(0, end as int), byte) == trim_end(hay@, byte),
        decreases end,
    {
        assert(hay@.subrange(0, end as int).drop_last() == hay@.subrange(0, end - 1));
        end -= 1;
    }
    end
}

fn path_leads_to_upload(pathname: &[u8]) -> (found: bool)
    ensures
        found == path_names_upload(pathname@),
{
    let needle = "/upload".as_bytes();
    let end: usize = trimmed_len(pathname, 47u8);
    if needle.len() > end {
        return false;
    }
    let at: usize = end - needle.len();
    let found = found_at(pathname, needle, at);
    assert(pathname@.subrange(0, end as int).subrange(at as int, at + needle.len())
        == pathname@.subrange(at as int, at + needle.len()));
    found
}

/// The mode asked for on the command line: the upload room when some
/// argument is `--upload`, the full experience otherwise.
pub fn mode_from_args(args: &Vec<String>) -> (mode: AppMode)
    ensures
        mode == if upload_flag_given(args@) {
            AppMode::UploadRoom
        } else {
            AppMode::FullExperience
        },
{
    let flag: String = "--upload".to_owned();
    let mut i: usize = 0;
    while i < args.len()
        invariant
            i <= args.len(),
            flag@ == "--upload"@,
            forall|j: int| 0 <= j < i ==> (#[trigger] args@[j])@ != "--upload"@,
        decreases args.len() - i,
    {
        if args[i] == flag {
            return AppMode::UploadRoom;
        }
        i += 1;
    }
    AppMode::FullExperience
}

/// The mode asked for by the page's location. Each part is given where it
/// could be read: the query string, the route remembered in the session, and
/// the path. The upload room is chosen when any of them names `/upload`.
pub fn mode_from_location(
    search: Option<&str>,
    stored_route: Option<&str>,
    pathname: Option<&str>,
) -> (mode: AppMode)
    ensures
        mode == if location_names_upload(search, stored_route, pathname) {
            AppMode::UploadRoom
        } else {
            AppMode::FullExperience
        },
{
    if let Some(s) = search {
        if contains(s.as_bytes(), "p=%2Fupload".as_bytes()) || contains(
            s.as_bytes(),
            "p=/upload".as_bytes(),
        ) {
            return AppMode::UploadRoom;
        }
    }
    if let Some(r) = stored_route {
        if contains(r.as_bytes(), "/upload".as_bytes()) {
            return AppMode::UploadRoom;
        }
    }
    if let Some(p) = pathname {
        if path_leads_to_upload(p.as_bytes()) {
            return AppMode::UploadRoom;
        }
    }
    AppMode::FullExperience
}

} // verus!
