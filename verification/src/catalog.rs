//! The catalogue of templates: for each project type and variant that has
//! templates, their paths below the repository, in alphabetical order.

use crate::template::walk::texts;
use crate::template::{TemplateLoader, TemplateVariant};
use crate::text::{chars_of, concat, string_of};
use crate::ProjectType;
use vstd::prelude::*;

verus! {

/// Whether `a` comes before `b` or equals it, character by character: the
/// first character in which they differ decides, and a text comes before
/// every text that it begins.
pub open spec fn lex_le(a: Seq<char>, b: Seq<char>) -> bool
    decreases a.len(),
{
    if a.len() == 0 {
        true
    } else if b.len() == 0 {
        false
    } else if a[0] != b[0] {
        a[0] < b[0]
    } else {
        lex_le(a.drop_first(), b.drop_first())
    }
}

/// Of two texts one comes before the other, or they are equal.
pub proof fn lemma_lex_total(a: Seq<char>, b: Seq<char>)
    ensures
        lex_le(a, b) || lex_le(b, a),
    decreases a.len(),
{
    if a.len() > 0 && b.len() > 0 && a[0] == b[0] {
        lemma_lex_total(a.drop_first(), b.drop_first());
    }
}

/// Whether each text comes before the next or equals it.
pub open spec fn ascending(list: Seq<Seq<char>>) -> bool {
    forall|i: int| 0 <= i < list.len() - 1 ==> lex_le(#[trigger] list[i], list[i + 1])
}

/// A path as the catalogue shows it: below the repository at `base` it is
/// shown relative to the repository, and anywhere else in full.
pub open spec fn shown(base: Seq<char>, path: Seq<char>) -> Seq<char> {
    if base.len() > 0 && base.is_prefix_of(path) {
        if base.last() == '/' {
            path.skip(base.len() as int)
        } else if path.len() > base.len() && path[base.len() as int] == '/' {
            path.skip(base.len() as int + 1)
        } else {
            path
        }
    } else {
        path
    }
}

/// The paths of a list as the catalogue shows them.
pub open spec fn all_shown(base: Seq<char>, paths: Seq<Seq<char>>) -> Seq<Seq<char>> {
    Seq::new(paths.len(), |i: int| shown(base, paths[i]))
}

/// The heading of a section of the catalogue: the name of the project type
/// and the directory of the variant.
pub open spec fn label_of(project_type: ProjectType, variant: TemplateVariant) -> Seq<char> {
    (match project_type {
        ProjectType::Binary => "Binary"@,
        ProjectType::Library => "Library"@,
    }) + "/"@ + variant.dir_name()
}

/// One section of the catalogue.
#[derive(Debug, Clone, PartialEq, Eq)]
pub struct TemplateSection {
    /// The heading of the section.
    pub label: String,
    /// The templates of the section as the catalogue shows them.
    pub templates: Vec<String>,
}

/// The templates that were listed for each project type and variant, where
/// the listing succeeded.
#[derive(Debug, Clone, PartialEq, Eq)]
pub struct Listed {
    /// The templates of the extended binary.
    pub binary_extended: Option<Vec<String>>,
    /// The templates of the minimal binary.
    pub binary_minimal: Option<Vec<String>>,
    /// The templates of the extended library.
    pub library_extended: Option<Vec<String>>,
    /// The templates of the minimal library.
    pub library_minimal: Option<Vec<String>>,
}

/// Whether `section` is the section of a project type and variant for the
/// templates that were listed: it has the heading of the two, and holds the
/// templates as the catalogue shows them, each as often as it was listed, in
/// ascending order.
pub open spec fn is_section(
    section: TemplateSection,
    base: Seq<char>,
    project_type: ProjectType,
    variant: TemplateVariant,
    listed: Seq<String>,
) -> bool {
    &&& section.label@ == label_of(project_type, variant)
    &&& ascending(texts(section.templates@))
    &&& texts(section.templates@).to_multiset() == all_shown(base, texts(listed)).to_multiset()
}

/// How many sections a listing contributes: one if it succeeded.
pub open spec fn section_count(listed: Option<Vec<String>>) -> int {
    if listed is Some {
        1
    } else {
        0
    }
}

/// Whether the section at `at` is the one for what was listed, if anything
/// was.
pub open spec fn holds_section(
    sections: Seq<TemplateSection>,
    at: int,
    base: Seq<char>,
    project_type: ProjectType,
    variant: TemplateVariant,
    listed: Option<Vec<String>>,
) -> bool {
    listed matches Some(list) ==> 0 <= at < sections.len() && is_section(
        sections[at],
        base,
        project_type,
        variant,
        list@,
    )
}

/// Tells whether `a` comes before `b` or equals it.
pub fn text_le(a: &str, b: &str) -> (le: bool)
    ensures
        le == lex_le(a@, b@),
{
    let left = chars_of(a);
    let right = chars_of(b);
    let mut i: usize = 0;
    assert(left@.skip(0) =~= left@);
    assert(right@.skip(0) =~= right@);
    while i < left.len() && i < right.len() && left[i] == right[i]
        invariant
            left@ == a@,
            right@ == b@,
            i <= left.len(),
            i <= right.len(),
            lex_le(a@, b@) == lex_le(left@.skip(i as int), right@.skip(i as int)),
        decreases left.len() - i,
    {
        assert(left@.skip(i as int).drop_first() =~= left@.skip(i + 1));
        assert(right@.skip(i as int).drop_first() =~= right@.skip(i + 1));
        i += 1;
    }
    assert(left@.skip(i as int).len() == left.len() - i);
    assert(right@.skip(i as int).len() == right.len() - i);
    if i == left.len() {
        true
    } else if i == right.len() {
        false
    } else {
        assert(left@.skip(i as int)[0] == left@[i as int]);
        assert(right@.skip(i as int)[0] == right@[i as int]);
        left[i] < right[i]
    }
}

/// Shows a path as the catalogue does.
pub fn show(base: &str, path: &str) -> (text: String)
    ensures
        text@ == shown(base@, path@),
{
    let prefix = chars_of(base);
    let full = chars_of(path);
    let n = prefix.len();
    if n == 0 || n > full.len() {
        return path.to_owned();
    }
    let mut i: usize = 0;
    while i < n
        invariant
            prefix@ == base@,
            full@ == path@,
            n == prefix.len(),
            n <= full.len(),
            i <= n,
            forall|j: int| 0 <= j < i ==> prefix@[j] == full@[j],
        decreases n - i,
    {
        if prefix[i] != full[i] {
            assert(full@.subrange(0, n as int)[i as int] != prefix@[i as int]);
            return path.to_owned();
        }
        i += 1;
    }
    assert(prefix@ =~= full@.subrange(0, n as int));
    let from = if prefix[n - 1] == '/' {
        n
    } else if n < full.len() && full[n] == '/' {
        n + 1
    } else {
        0
    };
    let mut rest: Vec<char> = Vec::new();
    crate::paths::extend_from(&mut rest, &full, from);
    assert(rest@ =~= full@.skip(from as int));
    assert(full@.skip(0) =~= full@);
    string_of(&rest)
}

/// The heading of the section of a project type and variant.
pub fn template_label(project_type: ProjectType, variant: TemplateVariant) -> (label: String)
    ensures
        label@ == label_of(project_type, variant),
{
    let kind = match project_type {
        ProjectType::Binary => "Binary",
        ProjectType::Library => "Library",
    };
    concat(concat(kind, "/").as_str(), variant.directory())
}

proof fn lemma_insert_multiset(list: Seq<Seq<char>>, at: int, text: Seq<char>)
    requires
        0 <= at <= list.len(),
    ensures
        list.insert(at, text).to_multiset() == list.to_multiset().insert(text),
{
    broadcast use vstd::seq_lib::group_to_multiset_ensures;

    let longer = list.insert(at, text);
    assert(longer.remove(at) =~= list);
    assert(longer[at] == text);
    vstd::seq_lib::to_multiset_remove(longer, at);
    assert(longer.contains(text));
    assert(longer.to_multiset() =~= list.to_multiset().insert(text));
}

/// Shows the paths of a list as the catalogue does and puts them in
/// ascending order.
pub fn sorted_display(base: &str, listed: &Vec<String>) -> (paths: Vec<String>)
    ensures
        ascending(texts(paths@)),
        texts(paths@).to_multiset() == all_shown(base@, texts(listed@)).to_multiset(),
{
    let mut paths: Vec<String> = Vec::new();
    let mut i: usize = 0;
    assert(texts(paths@) =~= all_shown(base@, texts(listed@)).take(0));
    while i < listed.len()
        invariant
            i <= listed@.len(),
            ascending(texts(paths@)),
            texts(paths@).to_multiset() == all_shown(base@, texts(listed@)).take(
                i as int,
            ).to_multiset(),
        decreases listed.len() - i,
    {
        let text = show(base, listed[i].as_str());
        let mut at: usize = 0;
        while at < paths.len() && text_le(paths[at].as_str(), text.as_str())
            invariant
                at <= paths@.len(),
                at > 0 ==> lex_le(paths@[at - 1]@, text@),
            decreases paths.len() - at,
        {
            at += 1;
        }
        let ghost before = texts(paths@);
        proof {
            if at < paths@.len() {
                lemma_lex_total(paths@[at as int]@, text@);
            }
            lemma_insert_multiset(before, at as int, text@);
            let shown_all = all_shown(base@, texts(listed@));
            assert(shown_all.take(i + 1) =~= shown_all.take(i as int).push(text@));
            broadcast use vstd::seq_lib::group_to_multiset_ensures;

        }
        paths.insert(at, text);
        assert(texts(paths@) =~= before.insert(at as int, text@));
        assert forall|k: int| 0 <= k < texts(paths@).len() - 1 implies lex_le(
            #[trigger] texts(paths@)[k],
            texts(paths@)[k + 1],
        ) by {
            if k + 1 < at {
                assert(lex_le(before[k], before[k + 1]));
            } else if k > at {
                assert(lex_le(before[k - 1], before[k]));
            }
        }
        i += 1;
    }
    assert(all_shown(base@, texts(listed@)).take(i as int) =~= all_shown(base@, texts(listed@)));
    paths
}

fn add_section(
    sections: &mut Vec<TemplateSection>,
    loader: &TemplateLoader,
    project_type: ProjectType,
    variant: TemplateVariant,
    listed: &Option<Vec<String>>,
)
    ensures
        match *listed {
            Some(list) => {
                &&& final(sections)@.len() == old(sections)@.len() + 1
                &&& final(sections)@.take(old(sections)@.len() as int) == old(sections)@
                &&& is_section(
                    final(sections)@.last(),
                    loader.base(),
                    project_type,
                    variant,
                    list@,
                )
            },
            None => final(sections)@ == old(sections)@,
        },
        forall|k: int| 0 <= k < old(sections)@.len() ==> final(sections)@[k] == old(sections)@[k],
{
    match listed {
        Some(list) => {
            let section = TemplateSection {
                label: template_label(project_type, variant),
                templates: sorted_display(loader.base_path(), list),
            };
            sections.push(section);
            assert(sections@.take(old(sections)@.len() as int) =~= old(sections)@);
        },
        None => {},
    }
}

/// Whether `sections` are the sections of the catalogue for what was listed:
/// one for each project type and variant with a listing, in the order of
/// their headings.
pub open spec fn is_catalogue(sections: Seq<TemplateSection>, base: Seq<char>, listed: Listed) -> bool {
    let first = section_count(listed.binary_extended);
    let second = first + section_count(listed.binary_minimal);
    let third = second + section_count(listed.library_extended);
    &&& sections.len() == third + section_count(listed.library_minimal)
    &&& holds_section(
        sections,
        0,
        base,
        ProjectType::Binary,
        TemplateVariant::Extended,
        listed.binary_extended,
    )
    &&& holds_section(
        sections,
        first,
        base,
        ProjectType::Binary,
        TemplateVariant::Minimal,
        listed.binary_minimal,
    )
    &&& holds_section(
        sections,
        second,
        base,
        ProjectType::Library,
        TemplateVariant::Extended,
        listed.library_extended,
    )
    &&& holds_section(
        sections,
        third,
        base,
        ProjectType::Library,
        TemplateVariant::Minimal,
        listed.library_minimal,
    )
}

/// Collects the templates of all project types and variants: a section for
/// each listing that succeeded, in the order of the headings, each with its
/// templates shown relative to the repository and in ascending order.
pub fn collect_templates(loader: &TemplateLoader, listed: &Listed) -> (sections: Vec<
    TemplateSection,
>)
    ensures
        is_catalogue(sections@, loader.base(), *listed),
{
    let mut sections: Vec<TemplateSection> = Vec::new();
    add_section(
        &mut sections,
        loader,
        ProjectType::Binary,
        TemplateVariant::Extended,
        &listed.binary_extended,
    );
    let ghost one = sections@;
    add_section(
        &mut sections,
        loader,
        ProjectType::Binary,
        TemplateVariant::Minimal,
        &listed.binary_minimal,
    );
    let ghost two = sections@;
    add_section(
        &mut sections,
        loader,
        ProjectType::Library,
        TemplateVariant::Extended,
        &listed.library_extended,
    );
    let ghost three = sections@;
    add_section(
        &mut sections,
        loader,
        ProjectType::Library,
        TemplateVariant::Minimal,
        &listed.library_minimal,
    );
    proof {
        let all = sections@;
        assert(forall|k: int| 0 <= k < three.len() ==> all[k] == all.take(three.len() as int)[k]);
        assert(forall|k: int| 0 <= k < two.len() ==> three[k] == three.take(two.len() as int)[k]);
        assert(forall|k: int| 0 <= k < one.len() ==> two[k] == two.take(one.len() as int)[k]);
    }
    sections
}

} // verus!
