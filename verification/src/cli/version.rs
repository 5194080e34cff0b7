//! What the version command reports: the build it runs, and whether a later
//! release exists.

use vstd::prelude::*;
use crate::json::{json_member, json_text, parse_json, parsed_json, text_member};
use crate::text::{trim, trimmed};

verus! {

/// What semver says of two texts: whether the first is a later version
/// than the second; `None` where one of them is no version.
pub uninterp spec fn release_order(candidate: Seq<char>, than: Seq<char>) -> Option<bool>;

/// The order of `semver::Version` on two texts, each read with
/// `semver::Version::parse`: whether `candidate` comes after `than`.  The
/// result is what [`release_order`] names.
#[verifier::external_body]
fn comes_after(candidate: &str, than: &str) -> (r: Option<bool>)
    ensures
        r == release_order(candidate@, than@),
{
    match (semver::Version::parse(candidate), semver::Version::parse(than)) {
        (Ok(candidate), Ok(than)) => Some(candidate > than),
        _ => None,
    }
}

/// What a build knows of itself.
#[derive(Debug, Clone)]
pub struct VersionInfo {
    pub version: String,
    /// `dev` or `release`.
    pub build: String,
    pub commit: Option<String>,
    pub branch: Option<String>,
    pub rust_version: Option<String>,
    pub target: Option<String>,
    pub features: Vec<String>,
}

/// A value of the build environment counts only where it is not blank.
pub open spec fn present_spec(value: Option<Seq<char>>) -> Option<Seq<char>> {
    match value {
        Some(s) => if trimmed(s).len() > 0 {
            Some(s)
        } else {
            None
        },
        None => None,
    }
}

/// Drops a value of the build environment that is blank.
pub fn present(value: Option<&str>) -> (r: Option<String>)
    ensures
        (match r { Some(s) => Some(s@), None => None }) == present_spec(
            match value { Some(s) => Some(s@), None => None },
        ),
{
    match value {
        Some(s) => if trim(s).is_empty() {
            None
        } else {
            Some(s.to_owned())
        },
        None => None,
    }
}

/// The short form of a commit id: its first seven characters.
pub open spec fn short_commit(commit: Seq<char>) -> Seq<char> {
    if commit.len() <= 7 {
        commit
    } else {
        commit.take(7)
    }
}

/// The line of the plain version output: the version and the build, then in
/// brackets the branch and the short commit, as far as they are known.
pub open spec fn version_line(
    version: Seq<char>,
    build: Seq<char>,
    branch: Option<Seq<char>>,
    commit: Option<Seq<char>>,
) -> Seq<char> {
    "br version "@ + version + " ("@ + build + ")"@ + (match (branch, commit) {
        (Some(b), Some(c)) => " ("@ + b + "@"@ + short_commit(c) + ")"@,
        (Some(b), None) => " ("@ + b + ")"@,
        (None, Some(c)) => " ("@ + short_commit(c) + ")"@,
        (None, None) => Seq::empty(),
    })
}

/// Shortens a commit id to seven characters.
pub fn shorten_commit(commit: &str) -> (r: String)
    ensures
        r@ == short_commit(commit@),
{
    let n: usize = commit.unicode_len();
    if n <= 7 {
        commit.to_owned()
    } else {
        let short: &str = commit.substring_char(0, 7);
        assert(short@ =~= commit@.take(7));
        short.to_owned()
    }
}

/// Writes the line of the plain version output.
pub fn plain_version_line(info: &VersionInfo) -> (r: String)
    ensures
        r@ == version_line(
            info.version@,
            info.build@,
            crate::model::opt_text(info.branch),
            crate::model::opt_text(info.commit),
        ),
{
    let mut line: String = "br version ".to_owned();
    line.append(info.version.as_str());
    line.append(" (");
    line.append(info.build.as_str());
    line.append(")");
    let ghost head = line@;
    match (&info.branch, &info.commit) {
        (Some(branch), Some(commit)) => {
            let short: String = shorten_commit(commit.as_str());
            line.append(" (");
            line.append(branch.as_str());
            line.append("@");
            line.append(short.as_str());
            line.append(")");
            assert(line@ =~= head + (" ("@ + branch@ + "@"@ + short_commit(commit@) + ")"@));
        },
        (Some(branch), None) => {
            line.append(" (");
            line.append(branch.as_str());
            line.append(")");
            assert(line@ =~= head + (" ("@ + branch@ + ")"@));
        },
        (None, Some(commit)) => {
            let short: String = shorten_commit(commit.as_str());
            line.append(" (");
            line.append(short.as_str());
            line.append(")");
            assert(line@ =~= head + (" ("@ + short_commit(commit@) + ")"@));
        },
        (None, None) => {
            assert(line@ =~= head + Seq::<char>::empty());
        },
    }
    line
}

/// One line of the build information: what it is and what it says.
#[derive(Debug)]
pub struct InfoItem {
    pub label: &'static str,
    pub value: String,
}

/// The build information that is known, as labelled lines: the short commit,
/// the branch, the compiler and the target, in this order.
pub open spec fn info_lines(
    commit: Option<Seq<char>>,
    branch: Option<Seq<char>>,
    rust_version: Option<Seq<char>>,
    target: Option<Seq<char>>,
) -> Seq<(Seq<char>, Seq<char>)> {
    (match commit {
        Some(c) => seq![("Commit"@, short_commit(c))],
        None => Seq::empty(),
    }) + (match branch {
        Some(b) => seq![("Branch"@, b)],
        None => Seq::empty(),
    }) + (match rust_version {
        Some(v) => seq![("Rust"@, v)],
        None => Seq::empty(),
    }) + (match target {
        Some(t) => seq![("Target"@, t)],
        None => Seq::empty(),
    })
}

/// The contents of a list of labelled lines.
pub open spec fn items_view(items: Seq<InfoItem>) -> Seq<(Seq<char>, Seq<char>)> {
    Seq::new(items.len(), |i: int| (items[i].label@, items[i].value@))
}

/// Gathers the build information that is known.
pub fn build_info_items(info: &VersionInfo) -> (r: Vec<InfoItem>)
    ensures
        items_view(r@) == info_lines(
            crate::model::opt_text(info.commit),
            crate::model::opt_text(info.branch),
            crate::model::opt_text(info.rust_version),
            crate::model::opt_text(info.target),
        ),
{
    let mut items: Vec<InfoItem> = Vec::new();
    if let Some(commit) = &info.commit {
        items.push(InfoItem { label: "Commit", value: shorten_commit(commit.as_str()) });
    }
    if let Some(branch) = &info.branch {
        items.push(InfoItem { label: "Branch", value: branch.clone() });
    }
    if let Some(rust_version) = &info.rust_version {
        items.push(InfoItem { label: "Rust", value: rust_version.clone() });
    }
    if let Some(target) = &info.target {
        items.push(InfoItem { label: "Target", value: target.clone() });
    }
    assert(items_view(items@) =~= info_lines(
        crate::model::opt_text(info.commit),
        crate::model::opt_text(info.branch),
        crate::model::opt_text(info.rust_version),
        crate::model::opt_text(info.target),
    ));
    items
}

/// The branch drawn before line `index` of `count`: a corner before the last
/// line, a tee before the others.
pub fn tree_prefix(index: usize, count: usize) -> (r: &'static str)
    ensures
        r@ == (if index == (if count == 0 { 0 } else { count - 1 }) { "└── "@ } else { "├── "@ }),
{
    let last: usize = if count == 0 {
        0
    } else {
        count - 1
    };
    if index == last {
        "└── "
    } else {
        "├── "
    }
}

/// A tag without the `v` that release tags start with.
pub open spec fn without_prefix(tag: Seq<char>) -> Seq<char> {
    if tag.len() > 0 && tag[0] == 'v' {
        tag.skip(1)
    } else {
        tag
    }
}

/// Strips the leading `v` of a release tag, if it has one.
pub fn strip_version_prefix(tag: &str) -> (r: String)
    ensures
        r@ == without_prefix(tag@),
{
    let n: usize = tag.unicode_len();
    if n > 0 && tag.get_char(0) == 'v' {
        let rest: &str = tag.substring_char(1, n);
        assert(rest@ =~= tag@.skip(1));
        rest.to_owned()
    } else {
        tag.to_owned()
    }
}

/// Why the latest release could not be read from an answer.
#[derive(Clone, Copy, Debug, PartialEq, Eq, Structural)]
pub enum ReleaseError {
    /// The answer is not JSON.
    NotJson,
    /// The answer names no tag.
    NoTag,
}

/// The version of the latest release, from the tag that was found in the
/// answer of the release service.
pub fn version_of_tag(tag: Option<String>) -> (r: Result<String, ReleaseError>)
    ensures
        match tag {
            Some(t) => r matches Ok(v) && v@ == without_prefix(t@),
            None => r == Err::<String, ReleaseError>(ReleaseError::NoTag),
        },
{
    match tag {
        Some(t) => Ok(strip_version_prefix(t.as_str())),
        None => Err(ReleaseError::NoTag),
    }
}

/// What the answer of the release service says of the latest release: the
/// `tag_name` of the JSON object without its leading `v`; `NotJson` for an
/// answer that is no JSON, `NoTag` for one without a text `tag_name`.
pub open spec fn latest_version_of(answer: Seq<char>) -> Result<Seq<char>, ReleaseError> {
    match parsed_json(answer) {
        Some(document) => match text_member(document, "tag_name"@) {
            Some(tag) => Ok(without_prefix(tag)),
            None => Err(ReleaseError::NoTag),
        },
        None => Err(ReleaseError::NotJson),
    }
}

/// Reads the version of the latest release from the answer of the release
/// service: the `tag_name` of the JSON object, without its leading `v`.
pub fn latest_version_in(answer: &str) -> (r: Result<String, ReleaseError>)
    ensures
        match latest_version_of(answer@) {
            Ok(version) => r matches Ok(found) && found@ == version,
            Err(e) => r == Err::<String, ReleaseError>(e),
        },
{
    let json = match parse_json(answer) {
        Some(json) => json,
        None => {
            return Err(ReleaseError::NotJson);
        },
    };
    let tag: Option<String> = match json_member(&json, "tag_name") {
        Some(member) => json_text(member),
        None => None,
    };
    version_of_tag(tag)
}

/// Whether `latest` is a later release than `current`, as semver orders
/// versions.  Unless both are versions, no update is reported.
pub fn update_available(current: &str, latest: &str) -> (r: bool)
    ensures
        r == (release_order(latest@, current@) == Some(true)),
{
    match comes_after(latest, current) {
        Some(later) => later,
        None => false,
    }
}

/// The exit code of the update check: 0 where the build is up to date, 1
/// where an update is available.
pub fn update_exit_code(update_available: bool) -> (r: i32)
    ensures
        r == (if update_available { 1i32 } else { 0i32 }),
{
    if update_available {
        1
    } else {
        0
    }
}

} // verus!
