//! The template repository: one base directory with a shared layer and one
//! layer for each project type and variant.

use crate::paths::{
    bare, bare_chars, find_separator, is_plain, join, join_chars, join_path,
    lemma_bare_of_plain, lemma_next_sep,
    lemma_next_sep_unique, lemma_past_separators, next_sep, past_separators, range_equals,
    subvec, trim_end, trimmed_len,
};
use crate::template::walk::{asks, initial_state, well_formed, TemplateWalk, WalkStep};
use crate::template::{TemplateError, TemplateVariant};
use crate::text::{chars_of, string_of};
use crate::ProjectType;
use vstd::prelude::*;

verus! {

/// The name of the directory of the shared layer.
pub open spec fn shared_layer() -> Seq<char> {
    "base"@
}

/// Whether `name` is the directory name of a project type.
pub open spec fn is_shape_name(name: Seq<char>) -> bool {
    name == "binary"@ || name == "library"@
}

/// What is left of a path relative to the repository without the segments
/// that name its layer.
///
/// Under the shared layer that is what follows the first segment, in its bare
/// form. Under a project type it is what follows the first two segments, type
/// and variant, where the path has three segments or more. Any other path is
/// kept whole.
pub open spec fn below_layer(rel: Seq<char>) -> Seq<char> {
    let first = next_sep(rel, 0);
    let head = rel.take(first);
    if head == shared_layer() {
        if first < rel.len() {
            bare(rel.skip(first + 1))
        } else {
            Seq::empty()
        }
    } else if is_shape_name(head) && first < rel.len() && next_sep(rel, first + 1) < rel.len() {
        rel.skip(next_sep(rel, first + 1) + 1)
    } else {
        rel
    }
}

/// The extension that marks a file as a template.
pub open spec fn template_marker() -> Seq<char> {
    ".hbs"@
}

/// Whether the last segment of `path` is a file name with the template marker
/// as its extension: it ends in the marker and has a name in front of it.
pub open spec fn has_template_marker(path: Seq<char>) -> bool {
    &&& path.len() > 4
    &&& path.skip(path.len() - 4) == template_marker()
    &&& path[path.len() - 5] != '/'
}

/// `path` without the template marker of its last segment, where that has
/// one: the path is cut in front of the marker, and what counted for nothing
/// behind the segment goes with it.
pub open spec fn strip_template_marker(path: Seq<char>) -> Seq<char> {
    let end = trimmed_len(path);
    if has_template_marker(path.take(end)) {
        path.take(end - 4)
    } else {
        path
    }
}

/// Where the template at `rel`, a path relative to the repository, lands below
/// `root`.
pub open spec fn destination(rel: Seq<char>, root: Seq<char>) -> Seq<char> {
    strip_template_marker(join_path(root, below_layer(rel)))
}

/// The path of a template relative to the repository: what `found` holds, and
/// the template's own path where no relative path was found.
pub open spec fn relative_or_own(found: Option<Seq<char>>, own: Seq<char>) -> Seq<char> {
    match found {
        Some(rel) => rel,
        None => own,
    }
}

/// The relative path from `base` to `path` that `pathdiff::diff_paths` finds.
pub uninterp spec fn diff_paths_of(path: Seq<char>, base: Seq<char>) -> Option<Seq<char>>;

/// Calls `pathdiff::diff_paths`, which compares the components of the two
/// paths and builds the relative path from `base` to `path`, or finds none. It
/// reads nothing but its arguments.
#[verifier::external_body]
fn relative_path(path: &str, base: &str) -> (found: Option<String>)
    ensures
        match found {
            Some(rel) => diff_paths_of(path@, base@) == Some(rel@),
            None => diff_paths_of(path@, base@) is None,
        },
{
    pathdiff::diff_paths(path, base).map(|rel| rel.to_string_lossy().into_owned())
}

fn without_layer(rel: &Vec<char>) -> (kept: Vec<char>)
    ensures
        kept@ == below_layer(rel@),
{
    proof {
        reveal_strlit("base");
        reveal_strlit("binary");
        reveal_strlit("library");
    }
    let n = rel.len();
    let first = find_separator(rel, 0);
    assert(rel@.take(first as int) =~= rel@.subrange(0, first as int));
    assert(rel@.subrange(0, n as int) =~= rel@);
    if range_equals(rel, 0, first, &chars_of("base")) {
        if first < n {
            let rest = subvec(rel, first + 1, n);
            assert(rel@.subrange(first + 1, n as int) =~= rel@.skip(first + 1));
            bare_chars(&rest)
        } else {
            Vec::new()
        }
    } else if range_equals(rel, 0, first, &chars_of("binary")) || range_equals(
        rel,
        0,
        first,
        &chars_of("library"),
    ) {
        if first < n {
            let second = find_separator(rel, first + 1);
            if second < n {
                assert(rel@.subrange(second + 1, n as int) =~= rel@.skip(second + 1));
                subvec(rel, second + 1, n)
            } else {
                subvec(rel, 0, n)
            }
        } else {
            subvec(rel, 0, n)
        }
    } else {
        subvec(rel, 0, n)
    }
}

pub(crate) fn ends_with_marker(path: &Vec<char>) -> (marked: bool)
    ensures
        marked == has_template_marker(path@),
{
    proof {
        reveal_strlit(".hbs");
    }
    let n = path.len();
    if n <= 4 {
        return false;
    }
    assert(path@.skip(n - 4) =~= path@.subrange(n - 4, n as int));
    range_equals(path, n - 4, n, &chars_of(".hbs")) && path[n - 5] != '/'
}

/// Computes where the template at `rel`, a path relative to the repository,
/// lands below `dest_root`.
pub fn destination_for(rel: &str, dest_root: &str) -> (dest: String)
    ensures
        dest@ == destination(rel@, dest_root@),
{
    let rel_chars = chars_of(rel);
    let root_chars = chars_of(dest_root);
    let kept = without_layer(&rel_chars);
    let mut joined = join_chars(&root_chars, &kept, 0);
    assert(kept@.skip(0) =~= kept@);
    let end = trim_end(&joined, joined.len());
    assert(joined@.take(joined.len() as int) =~= joined@);
    let name_end = subvec(&joined, 0, end);
    assert(joined@.subrange(0, end as int) =~= joined@.take(end as int));
    if ends_with_marker(&name_end) {
        joined.truncate(end - 4);
    }
    string_of(&joined)
}

/// A template of the shared layer lands below the root without the name of
/// the layer: of `base/` and a remainder only the remainder is kept, in its
/// bare form, which for a plain remainder is the remainder itself.
pub proof fn lemma_shared_layer_is_stripped(rest: Seq<char>, root: Seq<char>)
    ensures
        destination("base/"@ + rest, root) == strip_template_marker(join_path(root, bare(rest))),
        is_plain(rest) ==> destination("base/"@ + rest, root) == strip_template_marker(
            join_path(root, rest),
        ),
{
    if is_plain(rest) {
        lemma_bare_of_plain(rest);
    }
    reveal_strlit("base");
    reveal_strlit("base/");
    let rel = "base/"@ + rest;
    lemma_next_sep_unique(rel, 0, 4);
    assert(rel.take(4) =~= "base"@);
    assert(rel.skip(5) =~= rest);
}

/// A template of a project type lands below the root without its first two
/// segments, the type and the variant, whatever the variant is called.
pub proof fn lemma_shape_layer_is_stripped(
    shape: Seq<char>,
    variant: Seq<char>,
    rest: Seq<char>,
    root: Seq<char>,
)
    requires
        is_shape_name(shape),
        forall|i: int| 0 <= i < variant.len() ==> variant[i] != '/',
    ensures
        destination(shape.push('/') + variant.push('/') + rest, root) == strip_template_marker(
            join_path(root, rest),
        ),
{
    reveal_strlit("base");
    reveal_strlit("binary");
    reveal_strlit("library");
    let rel = shape.push('/') + variant.push('/') + rest;
    let first = shape.len() as int;
    let second = first + 1 + variant.len();
    lemma_next_sep_unique(rel, 0, first);
    lemma_next_sep_unique(rel, first + 1, second);
    assert(rel.take(first) =~= shape);
    assert(rel.skip(second + 1) =~= rest);
}

/// Of a path whose last segment is a name followed by `.hbs`, what is left
/// below the layer still ends in that name and `.hbs`.
proof fn lemma_marked_name_is_kept(stem: Seq<char>) -> (cut: int)
    requires
        stem.len() > 0,
        stem.last() != '/',
    ensures
        0 <= cut <= stem.len() - 1,
        below_layer(stem + template_marker()) == (stem + template_marker()).skip(cut),
{
    reveal_strlit("base");
    reveal_strlit(".hbs");
    let rel = stem + template_marker();
    let n = rel.len() as int;
    let first = next_sep(rel, 0);
    lemma_next_sep(rel, 0);
    assert(rel[n - 5] == stem.last());
    assert(rel[n - 4] == '.' && rel[n - 3] == 'h' && rel[n - 2] == 'b' && rel[n - 1] == 's');
    if rel.take(first) == shared_layer() {
        if first == n {
            assert(rel.take(first) =~= rel);
            assert(false);
        }
        assert(rel.take(first).len() == first);
        assert(shared_layer().len() == 4);
        assert(first == 4);
        let rest = rel.skip(5);
        let m = rest.len() as int;
        assert(m == n - 5);
        assert(rel[4] == '/');
        assert(m >= 5);
        assert(rest[m - 5] == rel[n - 5]);
        assert(rest[m - 4] == '.');
        assert(rest[m - 1] == 's');
        lemma_past_separators(rest, 0, m - 5);
        let from = past_separators(rest, 0);
        assert(trimmed_len(rest) == m);
        assert(rest.subrange(from, m) =~= rel.skip(5 + from));
        5 + from
    } else if is_shape_name(rel.take(first)) && first < n && next_sep(rel, first + 1) < n {
        lemma_next_sep(rel, first + 1);
        next_sep(rel, first + 1) + 1
    } else {
        assert(rel.skip(0) =~= rel);
        0
    }
}

/// Exactly one template marker is stripped: the destination of a template
/// whose file name is a name followed by `.hbs` is the joined path without
/// that last `.hbs`.
pub proof fn lemma_marker_is_stripped_once(stem: Seq<char>, root: Seq<char>)
    requires
        stem.len() > 0,
        stem.last() != '/',
    ensures
        ({
            let rel = stem + template_marker();
            let joined = join_path(root, below_layer(rel));
            &&& has_template_marker(joined)
            &&& destination(rel, root) + template_marker() == joined
        }),
{
    reveal_strlit(".hbs");
    let rel = stem + template_marker();
    let n = rel.len() as int;
    let cut = lemma_marked_name_is_kept(stem);
    let kept = rel.skip(cut);
    let joined = join_path(root, kept);
    assert(kept.len() >= 5);
    assert(joined.len() >= kept.len());
    assert(forall|j: int| 0 <= j < kept.len() ==> joined[joined.len() - kept.len() + j] == kept[j]);
    assert(joined.skip(joined.len() - 4) =~= template_marker());
    assert(joined[joined.len() - 5] == kept[kept.len() - 5]);
    assert(joined[joined.len() - 1] == kept[kept.len() - 1]);
    assert(trimmed_len(joined) == joined.len());
    assert(joined.take(joined.len() as int) =~= joined);
    assert(joined.take(joined.len() - 4) + template_marker() =~= joined);
}

/// Template loader for file-based templates.
#[derive(Debug, Clone)]
pub struct TemplateLoader {
    /// Base directory for templates.
    base_path: String,
}

impl TemplateLoader {
    /// The base directory of the repository.
    pub closed spec fn base(&self) -> Seq<char> {
        self.base_path@
    }

    /// Creates a loader for the repository at `base_path`.
    pub fn new(base_path: &str) -> (loader: Self)
        ensures
            loader.base() == base_path@,
    {
        TemplateLoader { base_path: base_path.to_owned() }
    }

    /// The base directory of the repository.
    pub fn base_path(&self) -> (path: &str)
        ensures
            path@ == self.base(),
    {
        self.base_path.as_str()
    }

    /// The path of the file that holds the template at `template_path`, a path
    /// relative to the repository.
    pub fn template_file(&self, template_path: &str) -> (file: String)
        ensures
            file@ == join_path(self.base(), template_path@),
    {
        join(self.base_path.as_str(), template_path)
    }

    /// Begins listing the templates of a project type and a variant: those of
    /// the shared layer first, then those of the project type.
    pub fn list_templates(&self, project_type: ProjectType, variant: TemplateVariant) -> (started: (
        TemplateWalk,
        WalkStep,
    ))
        ensures
            started.0@ == initial_state(self.base(), project_type, variant),
            well_formed(started.0@),
            asks(started.0@, started.1),
    {
        TemplateWalk::begin(self.base_path.as_str(), project_type, variant)
    }

    /// What loading the template at `template_path` gives, once the file has
    /// been read: its content, or a load error that names the template.
    pub fn load_template(
        &self,
        template_path: &str,
        read: Result<String, std::io::Error>,
    ) -> (loaded: Result<String, TemplateError>)
        ensures
            match read {
                Ok(content) => loaded == Ok::<String, TemplateError>(content),
                Err(cause) => loaded matches Err(TemplateError::LoadError { path, source })
                    && path@ == template_path@ && source == cause,
            },
    {
        match read {
            Ok(content) => Ok(content),
            Err(source) => Err(TemplateError::LoadError { path: template_path.to_owned(), source }),
        }
    }

    /// The path of a listed template relative to the repository, which is the
    /// path to load it by.
    pub fn template_source(&self, template_path: &str) -> (rel: String)
        ensures
            rel@ == relative_or_own(diff_paths_of(template_path@, self.base()), template_path@),
    {
        match relative_path(template_path, self.base_path.as_str()) {
            Some(rel) => rel,
            None => template_path.to_owned(),
        }
    }

    /// The destination of the template at `template_path` in a project
    /// generated at `dest_root`.
    pub fn get_destination_path(&self, template_path: &str, dest_root: &str) -> (dest: String)
        ensures
            dest@ == destination(
                relative_or_own(diff_paths_of(template_path@, self.base()), template_path@),
                dest_root@,
            ),
    {
        match relative_path(template_path, self.base_path.as_str()) {
            Some(rel) => destination_for(rel.as_str(), dest_root),
            None => destination_for(template_path, dest_root),
        }
    }
}

} // verus!
