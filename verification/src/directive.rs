//! The directive model: from the attributes written on a type or a field to
//! a normalized set of flags and values.
//!
//! Only attributes under the path `batiskaf` are read. Their items are
//! taken in the order written. The directives are the flags `skip`,
//! `primary_key`, `autogenerated` and `default`, and the key `column` with a
//! string value. Any other item is rejected.

use crate::definition::{annotation_views, attribute_views, Annotation, AnnotationView, Attribute,
    AttributeView};
use crate::text::same_text;
use vstd::prelude::*;

verus! {

/// What the attributes of one field, or of a type, say.
#[derive(Debug, Clone, PartialEq, Eq)]
pub struct FieldDirective {
    pub rename: Option<String>,
    pub skip: bool,
    pub primary_key: bool,
    pub autogenerated: bool,
    pub default_on_missing: bool,
}

pub struct FieldDirectiveView {
    pub rename: Option<Seq<char>>,
    pub skip: bool,
    pub primary_key: bool,
    pub autogenerated: bool,
    pub default_on_missing: bool,
}

impl View for FieldDirective {
    type V = FieldDirectiveView;

    open spec fn view(&self) -> FieldDirectiveView {
        FieldDirectiveView {
            rename: match self.rename {
                Some(r) => Some(r@),
                None => None,
            },
            skip: self.skip,
            primary_key: self.primary_key,
            autogenerated: self.autogenerated,
            default_on_missing: self.default_on_missing,
        }
    }
}

/// The items of the attributes under the path `batiskaf`, in the order
/// written.
pub open spec fn collected(attrs: Seq<AttributeView>) -> Seq<AnnotationView>
    decreases attrs.len(),
{
    if attrs.len() == 0 {
        Seq::empty()
    } else if attrs.last().path == "batiskaf"@ {
        collected(attrs.drop_last()) + attrs.last().items
    } else {
        collected(attrs.drop_last())
    }
}

/// Whether `a` is the bare flag `name`.
pub open spec fn is_flag(a: AnnotationView, name: Seq<char>) -> bool {
    a.name == name && a.value is None
}

/// Whether `a` is a rename: the key `column` with a value.
pub open spec fn is_rename(a: AnnotationView) -> bool {
    a.name == "column"@ && a.value is Some
}

/// Whether `a` is one of the directives, in its right shape.
pub open spec fn known(a: AnnotationView) -> bool {
    ||| is_flag(a, "skip"@)
    ||| is_flag(a, "primary_key"@)
    ||| is_flag(a, "autogenerated"@)
    ||| is_flag(a, "default"@)
    ||| is_rename(a)
}

/// Whether every item is a directive.
pub open spec fn all_known(items: Seq<AnnotationView>) -> bool {
    forall|k: int| 0 <= k < items.len() ==> known(#[trigger] items[k])
}

/// Whether `k` is the place of the first item that is no directive.
pub open spec fn first_unknown_at(items: Seq<AnnotationView>, k: int) -> bool {
    &&& 0 <= k < items.len()
    &&& !known(items[k])
    &&& forall|j: int| 0 <= j < k ==> known(#[trigger] items[j])
}

/// The name of the first item that is no directive, where there is one.
pub open spec fn first_unknown(items: Seq<AnnotationView>) -> Seq<char> {
    items[choose|k: int| first_unknown_at(items, k)].name
}

/// Whether the flag `name` occurs among the items.
pub open spec fn has_flag(items: Seq<AnnotationView>, name: Seq<char>) -> bool {
    exists|k: int| 0 <= k < items.len() && is_flag(#[trigger] items[k], name)
}

/// The value of the last rename among the items: a later one overrides an
/// earlier one.
pub open spec fn rename_of(items: Seq<AnnotationView>) -> Option<Seq<char>>
    decreases items.len(),
{
    if items.len() == 0 {
        None
    } else if is_rename(items.last()) {
        items.last().value
    } else {
        rename_of(items.drop_last())
    }
}

/// What a list of directives says.
pub open spec fn directive_of(items: Seq<AnnotationView>) -> FieldDirectiveView {
    FieldDirectiveView {
        rename: rename_of(items),
        skip: has_flag(items, "skip"@),
        primary_key: has_flag(items, "primary_key"@),
        autogenerated: has_flag(items, "autogenerated"@),
        default_on_missing: has_flag(items, "default"@),
    }
}

/// The outcome of reading a list of attributes: the directives, or the name
/// of the first item that is none.
pub open spec fn parsed(attrs: Seq<AttributeView>) -> Result<FieldDirectiveView, Seq<char>> {
    let items = collected(attrs);
    if all_known(items) {
        Ok(directive_of(items))
    } else {
        Err(first_unknown(items))
    }
}

/// There is at most one first unknown item.
pub proof fn lemma_first_unknown_unique(items: Seq<AnnotationView>, k: int)
    requires
        first_unknown_at(items, k),
    ensures
        !all_known(items),
        first_unknown(items) == items[k].name,
{
    let c = choose|c: int| first_unknown_at(items, c);
    assert(first_unknown_at(items, c));
    if c < k {
        assert(known(items[c]));
    } else if k < c {
        assert(known(items[k]));
    }
}

/// The names of the directives differ from one another.
pub proof fn lemma_directive_names_differ()
    ensures
        "skip"@ != "primary_key"@,
        "skip"@ != "autogenerated"@,
        "skip"@ != "default"@,
        "skip"@ != "column"@,
        "primary_key"@ != "autogenerated"@,
        "primary_key"@ != "default"@,
        "primary_key"@ != "column"@,
        "autogenerated"@ != "default"@,
        "autogenerated"@ != "column"@,
        "default"@ != "column"@,
{
    reveal_strlit("skip");
    reveal_strlit("primary_key");
    reveal_strlit("autogenerated");
    reveal_strlit("default");
    reveal_strlit("column");
    assert("skip"@.len() == 4);
    assert("primary_key"@.len() == 11);
    assert("autogenerated"@.len() == 13);
    assert("default"@.len() == 7);
    assert("column"@.len() == 6);
}

/// Appending an item extends both the flags and the rename.
proof fn lemma_directive_push(items: Seq<AnnotationView>, a: AnnotationView)
    ensures
        rename_of(items.push(a)) == if is_rename(a) {
            a.value
        } else {
            rename_of(items)
        },
        forall|name: Seq<char>| #[trigger]
            has_flag(items.push(a), name) == (has_flag(items, name) || is_flag(a, name)),
{
    let next = items.push(a);
    assert(next.drop_last() =~= items);
    assert(next.last() == a);
    assert forall|name: Seq<char>| #[trigger]
        has_flag(next, name) == (has_flag(items, name) || is_flag(a, name)) by {
        if has_flag(items, name) {
            let k = choose|k: int| 0 <= k < items.len() && is_flag(#[trigger] items[k], name);
            assert(is_flag(next[k], name));
        }
        if is_flag(a, name) {
            assert(is_flag(next[items.len() as int], name));
        }
        if has_flag(next, name) {
            let k = choose|k: int| 0 <= k < next.len() && is_flag(#[trigger] next[k], name);
            if k < items.len() {
                assert(is_flag(items[k], name));
            }
        }
    }
}

/// Gathers the items of the attributes under the path `batiskaf`.
fn collect<'a>(attrs: &'a Vec<Attribute>) -> (items: Vec<&'a Annotation>)
    ensures
        items@.len() == collected(attribute_views(attrs@)).len(),
        forall|k: int| 0 <= k < items@.len() ==> (#[trigger] items@[k])@ == collected(
            attribute_views(attrs@),
        )[k],
{
    let mut items: Vec<&'a Annotation> = Vec::new();
    let mut a: usize = 0;
    while a < attrs.len()
        invariant
            a <= attrs.len(),
            items@.len() == collected(attribute_views(attrs@).take(a as int)).len(),
            forall|k: int| 0 <= k < items@.len() ==> (#[trigger] items@[k])@ == collected(
                attribute_views(attrs@).take(a as int),
            )[k],
        decreases attrs.len() - a,
    {
        let ghost before = attribute_views(attrs@).take(a as int);
        let ghost after = attribute_views(attrs@).take(a + 1);
        proof {
            assert(after.drop_last() =~= before);
            assert(after.last() == attrs@[a as int]@);
        }
        if same_text(attrs[a].path.as_str(), "batiskaf") {
            let group = &attrs[a].items;
            let mut k: usize = 0;
            while k < group.len()
                invariant
                    k <= group.len(),
                    a < attrs.len(),
                    group@ == attrs@[a as int].items@,
                    items@.len() == collected(before).len() + k,
                    forall|j: int| 0 <= j < items@.len() ==> (#[trigger] items@[j])@ == (collected(
                        before,
                    ) + annotation_views(group@))[j],
                decreases group.len() - k,
            {
                items.push(&group[k]);
                k += 1;
            }
        }
        a += 1;
    }
    proof {
        assert(attribute_views(attrs@).take(attrs.len() as int) =~= attribute_views(attrs@));
    }
    items
}

/// Reads the attributes written on a type or a field. Returns the
/// directives they hold, or the name of the first item under `batiskaf`
/// that is no directive.
pub fn parse_attributes(attrs: &Vec<Attribute>) -> (r: Result<FieldDirective, String>)
    ensures
        match r {
            Ok(d) => parsed(attribute_views(attrs@)) == Ok::<FieldDirectiveView, Seq<char>>(d@),
            Err(name) => parsed(attribute_views(attrs@)) == Err::<FieldDirectiveView, Seq<char>>(
                name@,
            ),
        },
{
    let items = collect(attrs);
    let ghost all = collected(attribute_views(attrs@));
    let mut directive = FieldDirective {
        rename: None,
        skip: false,
        primary_key: false,
        autogenerated: false,
        default_on_missing: false,
    };
    let mut k: usize = 0;
    while k < items.len()
        invariant
            k <= items.len(),
            all == collected(attribute_views(attrs@)),
            items@.len() == all.len(),
            forall|j: int| 0 <= j < items@.len() ==> (#[trigger] items@[j])@ == all[j],
            all_known(all.take(k as int)),
            directive@ == directive_of(all.take(k as int)),
        decreases items.len() - k,
    {
        let item = items[k];
        let ghost seen = all.take(k as int);
        proof {
            assert(item@ == all[k as int]);
            lemma_directive_push(seen, item@);
            lemma_directive_names_differ();
            assert(seen.push(item@) =~= all.take(k + 1));
        }
        let is_flag = item.value.is_none();
        if is_flag && same_text(item.name.as_str(), "skip") {
            directive.skip = true;
        } else if is_flag && same_text(item.name.as_str(), "primary_key") {
            directive.primary_key = true;
        } else if is_flag && same_text(item.name.as_str(), "autogenerated") {
            directive.autogenerated = true;
        } else if is_flag && same_text(item.name.as_str(), "default") {
            directive.default_on_missing = true;
        } else if !is_flag && same_text(item.name.as_str(), "column") {
            directive.rename = match &item.value {
                Some(v) => Some(v.clone()),
                None => None,
            };
        } else {
            proof {
                assert(!known(all[k as int]));
                assert forall|j: int| 0 <= j < k implies known(#[trigger] all[j]) by {
                    assert(seen[j] == all[j]);
                }
                lemma_first_unknown_unique(all, k as int);
            }
            return Err(item.name.clone());
        }
        proof {
            assert forall|j: int| 0 <= j < k + 1 implies known(#[trigger] all.take(k + 1)[j]) by {
                if j < k {
                    assert(seen[j] == all[j]);
                    assert(known(seen[j]));
                }
            }
        }
        k += 1;
    }
    proof {
        assert(all.take(items.len() as int) =~= all);
    }
    Ok(directive)
}

} // verus!
