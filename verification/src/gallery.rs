//! The prompt gallery: its wire types, the stored rows they are built from,
//! slug validation, and the rules for what a detail request may show.

use vstd::prelude::*;
use vstd::string::*;
use crate::error::{AppError, STATUS_BAD_REQUEST, STATUS_INTERNAL_SERVER_ERROR, STATUS_NOT_FOUND};
use crate::text::{chars_of, same_text};

verus! {

/// A lightweight entry for a single prompt-gallery project as shown in lists.
#[derive(Debug, Clone, PartialEq, Eq)]
pub struct GalleryProjectSummary {
    /// Stable slug used as the project identifier on the wire.
    pub slug: String,
    pub title: String,
    pub summary: String,
}

/// The phase of a project file in the gallery.
#[derive(Debug, Clone, PartialEq, Eq)]
pub enum GalleryProjectFilePhase {
    Initial,
    Result,
}

/// A single file belonging to a gallery project.
#[derive(Debug, Clone, PartialEq, Eq)]
pub struct GalleryProjectFile {
    pub phase: GalleryProjectFilePhase,
    pub path: String,
    pub language: Option<String>,
    pub content: String,
}

/// Full detail for a single gallery project, including the prompt and its
/// ordered initial and result files.
#[derive(Debug, Clone, PartialEq, Eq)]
pub struct GalleryProjectDetail {
    pub slug: String,
    pub title: String,
    pub summary: String,
    /// The prompt text that a coding agent was given for this project.
    pub prompt: String,
    pub created_at: String,
    pub updated_at: String,
    pub initial_files: Vec<GalleryProjectFile>,
    pub result_files: Vec<GalleryProjectFile>,
}

/// A stored gallery project.
#[derive(Debug, Clone)]
pub struct GalleryProjectRow {
    pub id: i64,
    pub slug: String,
    pub title: String,
    pub summary: String,
    pub prompt: String,
    pub publication_state: String,
    pub display_order: i64,
    pub created_at: String,
    pub updated_at: String,
}

/// A stored gallery file.
#[derive(Debug, Clone)]
pub struct GalleryFileRow {
    pub id: i64,
    pub project_id: i64,
    pub phase: String,
    pub path: String,
    pub language: Option<String>,
    pub content: String,
    pub display_order: i64,
}

/// The public phase a stored phase name stands for: `initial` and `result`;
/// any other stored value stands for none.
pub open spec fn phase_of_name(name: Seq<char>) -> Option<GalleryProjectFilePhase> {
    if name == "initial"@ {
        Some(GalleryProjectFilePhase::Initial)
    } else if name == "result"@ {
        Some(GalleryProjectFilePhase::Result)
    } else {
        None
    }
}

/// The public file of a stored file row in the given phase.
pub open spec fn file_in_phase(row: GalleryFileRow, phase: GalleryProjectFilePhase) -> GalleryProjectFile {
    GalleryProjectFile { phase, path: row.path, language: row.language, content: row.content }
}

/// The public file for a stored file row, when its stored phase is a known
/// one; an unknown stored phase has no public file.
pub open spec fn file_of_row(row: GalleryFileRow) -> Option<GalleryProjectFile> {
    match phase_of_name(row.phase@) {
        Some(phase) => Some(file_in_phase(row, phase)),
        None => None,
    }
}

/// The public files for the rows whose stored phase is `phase`, in row order.
pub open spec fn files_in_phase(rows: Seq<GalleryFileRow>, phase: GalleryProjectFilePhase) -> Seq<
    GalleryProjectFile,
>
    decreases rows.len(),
{
    if rows.len() == 0 {
        Seq::empty()
    } else {
        let earlier = files_in_phase(rows.drop_last(), phase);
        if phase_of_name(rows.last().phase@) == Some(phase) {
            earlier.push(file_in_phase(rows.last(), phase))
        } else {
            earlier
        }
    }
}

/// Whether every stored phase is a known one.
pub open spec fn all_phases_known(rows: Seq<GalleryFileRow>) -> bool {
    forall|i: int| 0 <= i < rows.len() ==> is_known_phase(#[trigger] rows[i].phase@)
}

/// The public phase of a stored phase name (see [`phase_of_name`]).
fn phase_named(name: &str) -> (p: Option<GalleryProjectFilePhase>)
    ensures
        p == phase_of_name(name@),
{
    if same_text(name, "initial") {
        Some(GalleryProjectFilePhase::Initial)
    } else if same_text(name, "result") {
        Some(GalleryProjectFilePhase::Result)
    } else {
        None
    }
}

fn same_phase(a: &GalleryProjectFilePhase, b: &GalleryProjectFilePhase) -> (r: bool)
    ensures
        r == (*a == *b),
{
    match (a, b) {
        (GalleryProjectFilePhase::Initial, GalleryProjectFilePhase::Initial) => true,
        (GalleryProjectFilePhase::Result, GalleryProjectFilePhase::Result) => true,
        _ => false,
    }
}

fn clone_text(s: &String) -> (c: String)
    ensures
        c == s,
{
    s.clone()
}

fn clone_optional_text(s: &Option<String>) -> (c: Option<String>)
    ensures
        c == s,
{
    match s {
        Some(t) => Some(t.clone()),
        None => None,
    }
}

impl GalleryProjectSummary {
    /// The list entry for a stored project.
    pub fn from_row(row: GalleryProjectRow) -> (s: GalleryProjectSummary)
        ensures
            s.slug == row.slug,
            s.title == row.title,
            s.summary == row.summary,
    {
        GalleryProjectSummary { slug: row.slug, title: row.title, summary: row.summary }
    }
}

impl GalleryProjectFile {
    /// The public file for a stored file row; a stored phase other than
    /// `initial` or `result` has none, rather than being mapped to a public
    /// phase.
    pub fn from_row(row: &GalleryFileRow) -> (f: Option<GalleryProjectFile>)
        ensures
            f == file_of_row(*row),
    {
        match phase_named(row.phase.as_str()) {
            Some(phase) => Some(
                GalleryProjectFile {
                    phase,
                    path: clone_text(&row.path),
                    language: clone_optional_text(&row.language),
                    content: clone_text(&row.content),
                },
            ),
            None => None,
        }
    }
}

/// The public files of the rows whose stored phase is `phase`, in row order.
fn select_files(files: &Vec<GalleryFileRow>, phase: GalleryProjectFilePhase) -> (out: Vec<
    GalleryProjectFile,
>)
    ensures
        out@ == files_in_phase(files@, phase),
{
    let mut out: Vec<GalleryProjectFile> = Vec::new();
    let mut i: usize = 0;
    while i < files.len()
        invariant
            i <= files.len(),
            out@ == files_in_phase(files@.take(i as int), phase),
        decreases files.len() - i,
    {
        assert(files@.take(i + 1).drop_last() == files@.take(i as int));
        match phase_named(files[i].phase.as_str()) {
            Some(p) => {
                if same_phase(&p, &phase) {
                    out.push(
                        GalleryProjectFile {
                            phase: p,
                            path: clone_text(&files[i].path),
                            language: clone_optional_text(&files[i].language),
                            content: clone_text(&files[i].content),
                        },
                    );
                }
            },
            None => {},
        }
        i = i + 1;
    }
    assert(files@.take(files.len() as int) == files@);
    out
}

/// The full detail of a project from its stored row and its file rows: the
/// `initial` and the `result` file rows, each in the given order. A stored
/// phase other than those two gives no detail, rather than being mapped to a
/// public phase or dropped.
pub fn project_detail(row: GalleryProjectRow, files: Vec<GalleryFileRow>) -> (r: Option<
    GalleryProjectDetail,
>)
    ensures
        r is Some <==> all_phases_known(files@),
        r matches Some(d) ==> {
            &&& d.slug == row.slug
            &&& d.title == row.title
            &&& d.summary == row.summary
            &&& d.prompt == row.prompt
            &&& d.created_at == row.created_at
            &&& d.updated_at == row.updated_at
            &&& d.initial_files@ == files_in_phase(files@, GalleryProjectFilePhase::Initial)
            &&& d.result_files@ == files_in_phase(files@, GalleryProjectFilePhase::Result)
        },
{
    let mut i: usize = 0;
    while i < files.len()
        invariant
            i <= files.len(),
            forall|k: int| 0 <= k < i ==> is_known_phase(#[trigger] files@[k].phase@),
        decreases files.len() - i,
    {
        if phase_named(files[i].phase.as_str()).is_none() {
            return None;
        }
        i = i + 1;
    }
    let initial_files = select_files(&files, GalleryProjectFilePhase::Initial);
    let result_files = select_files(&files, GalleryProjectFilePhase::Result);
    Some(
        GalleryProjectDetail {
            slug: row.slug,
            title: row.title,
            summary: row.summary,
            prompt: row.prompt,
            created_at: row.created_at,
            updated_at: row.updated_at,
            initial_files,
            result_files,
        },
    )
}

/// The list entries for stored projects, in the given order.
pub fn project_summaries(rows: Vec<GalleryProjectRow>) -> (out: Vec<GalleryProjectSummary>)
    ensures
        out@.len() == rows@.len(),
        forall|i: int|
            0 <= i < rows@.len() ==> (#[trigger] out@[i]).slug == rows@[i].slug && out@[i].title
                == rows@[i].title && out@[i].summary == rows@[i].summary,
{
    let mut out: Vec<GalleryProjectSummary> = Vec::new();
    let mut rows = rows;
    let ghost given = rows@;
    while rows.len() > 0
        invariant
            out@.len() + rows@.len() == given.len(),
            rows@ == given.subrange(out@.len() as int, given.len() as int),
            forall|i: int|
                0 <= i < out@.len() ==> (#[trigger] out@[i]).slug == given[i].slug
                    && out@[i].title == given[i].title && out@[i].summary
                    == given[i].summary,
        decreases rows.len(),
    {
        let row = rows.remove(0);
        out.push(GalleryProjectSummary::from_row(row));
    }
    out
}


/// Why a slug was refused.
#[derive(Debug)]
pub enum SlugProblem {
    /// Empty, or longer than 100 bytes.
    Length,
    /// Two `-` in a row.
    ConsecutiveDashes,
    /// A character other than a lowercase ASCII letter, a digit, or `-`.
    InvalidCharacter,
    /// A `-` at the start or the end.
    EdgeHyphen,
}

/// The error code of a refused slug.
pub const INVALID_SLUG_CODE: &'static str = "invalid_gallery_slug";

/// The message for a slug refused for its length.
pub const SLUG_LENGTH_MESSAGE: &'static str = "Slug must be 1-100 characters.";

/// The message for a slug with consecutive dashes.
pub const SLUG_DASHES_MESSAGE: &'static str = "Slug must not contain consecutive dashes.";

/// The message for a slug with a character outside the allowed set.
pub const SLUG_CHARACTERS_MESSAGE: &'static str =
    "Slug must contain only lowercase ASCII letters, digits, and hyphens.";

/// The message for a slug that starts or ends with a hyphen.
pub const SLUG_EDGE_MESSAGE: &'static str = "Slug must not start or end with a hyphen.";

/// The longest slug accepted, in bytes.
pub const MAX_SLUG_BYTES: usize = 100;

/// A lowercase ASCII letter or a digit.
pub open spec fn is_slug_alnum(c: char) -> bool {
    ('a' <= c <= 'z') || ('0' <= c <= '9')
}

/// The first problem met scanning `s` left to right, `prev_dash` telling
/// whether the character before `s` was a `-`.
pub open spec fn slug_scan(s: Seq<char>, prev_dash: bool) -> Option<SlugProblem>
    decreases s.len(),
{
    if s.len() == 0 {
        None
    } else if is_slug_alnum(s[0]) {
        slug_scan(s.drop_first(), false)
    } else if s[0] == '-' {
        if prev_dash {
            Some(SlugProblem::ConsecutiveDashes)
        } else {
            slug_scan(s.drop_first(), true)
        }
    } else {
        Some(SlugProblem::InvalidCharacter)
    }
}

/// The problem reported for the slug `s` of `byte_len` UTF-8 bytes: its length
/// first, then the first bad character or dash pair, then a hyphen at an end.
pub open spec fn slug_problem(s: Seq<char>, byte_len: int) -> Option<SlugProblem> {
    if s.len() == 0 || byte_len > MAX_SLUG_BYTES {
        Some(SlugProblem::Length)
    } else {
        match slug_scan(s, false) {
            Some(p) => Some(p),
            None => if s[0] == '-' || s.last() == '-' {
                Some(SlugProblem::EdgeHyphen)
            } else {
                None
            },
        }
    }
}

/// The message answering a slug problem.
pub open spec fn slug_problem_message(p: SlugProblem) -> Seq<char> {
    match p {
        SlugProblem::Length => SLUG_LENGTH_MESSAGE@,
        SlugProblem::ConsecutiveDashes => SLUG_DASHES_MESSAGE@,
        SlugProblem::InvalidCharacter => SLUG_CHARACTERS_MESSAGE@,
        SlugProblem::EdgeHyphen => SLUG_EDGE_MESSAGE@,
    }
}

/// A bounded lowercase ASCII kebab-case slug: 1 to 100 bytes of lowercase
/// letters, digits and single hyphens between them.
pub open spec fn is_kebab_slug(s: Seq<char>, byte_len: int) -> bool {
    &&& 0 < s.len()
    &&& byte_len <= MAX_SLUG_BYTES
    &&& forall|i: int| 0 <= i < s.len() ==> is_slug_alnum(#[trigger] s[i]) || s[i] == '-'
    &&& forall|i: int| 0 <= i < s.len() - 1 ==> !(#[trigger] s[i] == '-' && s[i + 1] == '-')
    &&& s[0] != '-'
    &&& s.last() != '-'
}

/// The scan finds no problem exactly when every character is allowed, no two
/// `-` are adjacent, and `s` does not start with `-` right after one.
proof fn lemma_slug_scan(s: Seq<char>, prev_dash: bool)
    ensures
        slug_scan(s, prev_dash) is None <==> {
            &&& forall|i: int| 0 <= i < s.len() ==> is_slug_alnum(#[trigger] s[i]) || s[i] == '-'
            &&& forall|i: int| 0 <= i < s.len() - 1 ==> !(#[trigger] s[i] == '-' && s[i + 1] == '-')
            &&& (prev_dash && s.len() > 0) ==> s[0] != '-'
        },
    decreases s.len(),
{
    if s.len() > 0 {
        let t = s.drop_first();
        lemma_slug_scan(t, s[0] == '-');
        assert(forall|i: int| 0 <= i < t.len() ==> t[i] == s[i + 1]);
        if slug_scan(s, prev_dash) is None {
            assert forall|i: int| 0 <= i < s.len() implies is_slug_alnum(#[trigger] s[i]) || s[i] == '-' by {
                if i > 0 {
                    assert(t[i - 1] == s[i]);
                }
            }
            assert forall|i: int| 0 <= i < s.len() - 1 implies !(#[trigger] s[i] == '-' && s[i + 1] == '-') by {
                if i > 0 {
                    assert(t[i - 1] == s[i]);
                }
            }
        }
    }
}

/// A slug is accepted exactly when it is a bounded lowercase kebab-case slug.
pub proof fn lemma_slug_accepted_iff_kebab(s: Seq<char>, byte_len: int)
    ensures
        slug_problem(s, byte_len) is None <==> is_kebab_slug(s, byte_len),
{
    lemma_slug_scan(s, false);
}

/// Validate a gallery slug before it is looked up: a bounded lowercase ASCII
/// kebab-case slug passes; any other slug is answered with a 400
/// `invalid_gallery_slug` error naming its first problem.
pub fn validate_slug(slug: &str) -> (r: Result<(), AppError>)
    ensures
        r is Ok <==> slug_problem(slug@, slug.spec_bytes().len() as int) is None,
        r matches Err(e) ==> {
            &&& e.status == STATUS_BAD_REQUEST
            &&& e.code@ == INVALID_SLUG_CODE@
            &&& e.message@ == slug_problem_message(
                slug_problem(slug@, slug.spec_bytes().len() as int).unwrap(),
            )
            &&& e.details is None
        },
{
    let chars = chars_of(slug);
    if chars.len() == 0 || slug.as_bytes().len() > MAX_SLUG_BYTES {
        return Err(AppError::new(STATUS_BAD_REQUEST, INVALID_SLUG_CODE, SLUG_LENGTH_MESSAGE));
    }
    let mut prev_was_dash = false;
    let mut i: usize = 0;
    assert(slug@.skip(0) == slug@);
    while i < chars.len()
        invariant
            chars@ == slug@,
            chars.len() > 0,
            slug.spec_bytes().len() <= MAX_SLUG_BYTES,
            i <= chars.len(),
            slug_scan(slug@, false) == slug_scan(slug@.skip(i as int), prev_was_dash),
        decreases chars.len() - i,
    {
        let ch = chars[i];
        assert(slug@.skip(i as int)[0] == ch);
        assert(slug@.skip(i as int).drop_first() == slug@.skip(i + 1));
        if ('a' <= ch && ch <= 'z') || ('0' <= ch && ch <= '9') {
            prev_was_dash = false;
        } else if ch == '-' {
            if prev_was_dash {
                return Err(AppError::new(STATUS_BAD_REQUEST, INVALID_SLUG_CODE, SLUG_DASHES_MESSAGE));
            }
            prev_was_dash = true;
        } else {
            return Err(
                AppError::new(STATUS_BAD_REQUEST, INVALID_SLUG_CODE, SLUG_CHARACTERS_MESSAGE),
            );
        }
        i = i + 1;
    }
    assert(slug@.skip(chars.len() as int).len() == 0);
    if chars[0] == '-' || chars[chars.len() - 1] == '-' {
        return Err(AppError::new(STATUS_BAD_REQUEST, INVALID_SLUG_CODE, SLUG_EDGE_MESSAGE));
    }
    Ok(())
}

/// The error code for a project that is missing or not published.
pub const PROJECT_NOT_FOUND_CODE: &'static str = "gallery_project_not_found";

/// The message for a project that is missing or not published.
pub const PROJECT_NOT_FOUND_MESSAGE: &'static str = "Gallery project not found.";

/// The message for a stored file whose phase is neither `initial` nor `result`.
pub const UNKNOWN_PHASE_MESSAGE: &'static str = "Unknown file phase in gallery data.";

/// The publication state of a project that visitors may see.
pub const PUBLISHED: &'static str = "published";

/// The project row a detail request may show: a missing project and a project
/// that is not published are both answered with the same 404, so the
/// publication state of a draft is not exposed.
pub fn visible_project(row: Option<GalleryProjectRow>) -> (r: Result<GalleryProjectRow, AppError>)
    ensures
        r is Ok <==> (row matches Some(p) && p.publication_state@ == PUBLISHED@),
        r matches Ok(p) ==> row == Some(p),
        r matches Err(e) ==> {
            &&& e.status == STATUS_NOT_FOUND
            &&& e.code@ == PROJECT_NOT_FOUND_CODE@
            &&& e.message@ == PROJECT_NOT_FOUND_MESSAGE@
            &&& e.details is None
        },
{
    match row {
        Some(p) => {
            if same_text(p.publication_state.as_str(), PUBLISHED) {
                Ok(p)
            } else {
                Err(AppError::new(STATUS_NOT_FOUND, PROJECT_NOT_FOUND_CODE, PROJECT_NOT_FOUND_MESSAGE))
            }
        },
        None => Err(
            AppError::new(STATUS_NOT_FOUND, PROJECT_NOT_FOUND_CODE, PROJECT_NOT_FOUND_MESSAGE),
        ),
    }
}

/// Whether a stored phase is one the public API knows.
pub open spec fn is_known_phase(phase: Seq<char>) -> bool {
    phase == "initial"@ || phase == "result"@
}

/// The detail of a visible project from its file rows; a stored phase other
/// than `initial` or `result` is an internal error rather than being mapped
/// to a public phase.
pub fn checked_project_detail(row: GalleryProjectRow, files: Vec<GalleryFileRow>) -> (r: Result<
    GalleryProjectDetail,
    AppError,
>)
    ensures
        r is Ok <==> all_phases_known(files@),
        r matches Ok(d) ==> {
            &&& d.slug == row.slug
            &&& d.title == row.title
            &&& d.summary == row.summary
            &&& d.prompt == row.prompt
            &&& d.created_at == row.created_at
            &&& d.updated_at == row.updated_at
            &&& d.initial_files@ == files_in_phase(files@, GalleryProjectFilePhase::Initial)
            &&& d.result_files@ == files_in_phase(files@, GalleryProjectFilePhase::Result)
        },
        r matches Err(e) ==> {
            &&& e.status == STATUS_INTERNAL_SERVER_ERROR
            &&& e.code@ == "internal_error"@
            &&& e.message@ == UNKNOWN_PHASE_MESSAGE@
            &&& e.details is None
        },
{
    match project_detail(row, files) {
        Some(d) => Ok(d),
        None => Err(AppError::internal(UNKNOWN_PHASE_MESSAGE)),
    }
}

/// Rows with known phases are split completely: every row lands in exactly
/// one of the two phase lists.
pub proof fn lemma_known_phases_partition(rows: Seq<GalleryFileRow>)
    requires
        all_phases_known(rows),
    ensures
        files_in_phase(rows, GalleryProjectFilePhase::Initial).len() + files_in_phase(
            rows,
            GalleryProjectFilePhase::Result,
        ).len() == rows.len(),
    decreases rows.len(),
{
    if rows.len() > 0 {
        let d = rows.drop_last();
        assert forall|i: int| 0 <= i < d.len() implies is_known_phase(#[trigger] d[i].phase@) by {
            assert(d[i] == rows[i]);
        }
        lemma_known_phases_partition(d);
        assert(is_known_phase(rows[rows.len() - 1].phase@));
        assert("initial"@.len() != "result"@.len()) by {
            reveal_strlit("initial");
            reveal_strlit("result");
        }
    }
}

} // verus!
