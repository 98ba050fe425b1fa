use vstd::prelude::*;

use crate::model::{Attr, AttrView, attrs_view, is_marker, marker_name};

verus! {

/// What the locator yields on an attribute list: the identifier argument of
/// the first well-formed marker annotation, or `None` when there is none.
pub open spec fn locate_marker(attrs: Seq<AttrView>) -> Option<Seq<char>>
    decreases attrs.len(),
{
    if attrs.len() == 0 {
        None
    } else if is_marker(attrs[0]) {
        attrs[0].1
    } else {
        locate_marker(attrs.skip(1))
    }
}

/// Scan the attributes in declaration order for the first well-formed marker
/// annotation and return its identifier argument. First match wins; an
/// annotation that is named like the marker but carries anything other than
/// a single bare identifier is skipped like any other attribute.
pub fn find_singleton_static_name(attrs: &Vec<Attr>) -> (r: Option<String>)
    ensures
        match r {
            Some(id) => locate_marker(attrs_view(attrs@)) == Some(id@),
            None => locate_marker(attrs_view(attrs@)) is None,
        },
{
    let marker: String = "singleton".to_owned();
    let n = attrs.len();
    let mut i: usize = 0;
    proof {
        assert(attrs_view(attrs@).skip(0) =~= attrs_view(attrs@));
    }
    while i < n
        invariant
            n == attrs@.len(),
            marker@ == marker_name(),
            i <= n,
            locate_marker(attrs_view(attrs@)) == locate_marker(
                attrs_view(attrs@).skip(i as int),
            ),
        decreases n - i,
    {
        let a = &attrs[i];
        proof {
            assert(attrs_view(attrs@).skip(i as int)[0] == attrs_view(attrs@)[i as int]);
            assert(attrs_view(attrs@)[i as int] == a@);
        }
        if a.name == marker {
            match &a.arg {
                Some(id) => {
                    return Some(id.clone());
                },
                None => {},
            }
        }
        proof {
            assert(!is_marker(a@));
            assert(attrs_view(attrs@).skip(i as int).skip(1) =~= attrs_view(attrs@).skip(
                i as int + 1,
            ));
        }
        i += 1;
    }
    proof {
        assert(attrs_view(attrs@).skip(n as int).len() == 0);
    }
    None
}

/// Law: the locator reports absence exactly when no attached attribute is a
/// well-formed marker annotation.
pub proof fn lemma_locate_none_iff_no_marker(attrs: Seq<AttrView>)
    ensures
        locate_marker(attrs) is None <==> (forall|i: int|
            0 <= i < attrs.len() ==> !is_marker(attrs[i])),
    decreases attrs.len(),
{
    if attrs.len() == 0 {
    } else {
        lemma_locate_none_iff_no_marker(attrs.skip(1));
        assert(forall|i: int| 0 <= i < attrs.skip(1).len() ==> attrs.skip(1)[i] == attrs[i + 1]);
        if locate_marker(attrs) is None {
            assert forall|i: int| 0 <= i < attrs.len() implies !is_marker(attrs[i]) by {
                if i > 0 {
                    assert(attrs.skip(1)[i - 1] == attrs[i]);
                }
            }
        }
        if forall|i: int| 0 <= i < attrs.len() ==> !is_marker(attrs[i]) {
            assert(!is_marker(attrs[0]));
            assert(forall|i: int| 0 <= i < attrs.skip(1).len() ==> !is_marker(attrs.skip(1)[i]));
        }
    }
}

/// Law: a found identifier comes from the first well-formed marker
/// annotation: some attribute is a well-formed marker carrying exactly that
/// identifier, and no attribute before it is a well-formed marker.
pub proof fn lemma_locate_finds_first_marker(attrs: Seq<AttrView>, st: Seq<char>)
    requires
        locate_marker(attrs) == Some(st),
    ensures
        exists|i: int|
            0 <= i < attrs.len() && #[trigger] is_marker(attrs[i]) && attrs[i].1 == Some(st)
                && (forall|j: int| 0 <= j < i ==> !is_marker(attrs[j])),
    decreases attrs.len(),
{
    if is_marker(attrs[0]) {
        assert(0 <= 0 < attrs.len() && is_marker(attrs[0]) && attrs[0].1 == Some(st) && (
        forall|j: int| 0 <= j < 0 ==> !is_marker(attrs[j])));
    } else {
        lemma_locate_finds_first_marker(attrs.skip(1), st);
        let k = choose|k: int|
            0 <= k < attrs.skip(1).len() && #[trigger] is_marker(attrs.skip(1)[k])
                && attrs.skip(1)[k].1 == Some(st) && (forall|j: int|
                0 <= j < k ==> !is_marker(attrs.skip(1)[j]));
        assert(attrs.skip(1)[k] == attrs[k + 1]);
        assert forall|j: int| 0 <= j < k + 1 implies !is_marker(attrs[j]) by {
            if j > 0 {
                assert(attrs.skip(1)[j - 1] == attrs[j]);
            }
        }
        assert(0 <= k + 1 < attrs.len() && is_marker(attrs[k + 1]) && attrs[k + 1].1 == Some(st)
            && (forall|j: int| 0 <= j < k + 1 ==> !is_marker(attrs[j])));
    }
}

/// Law: a declaration with no attribute named like the marker at all locates
/// nothing.
pub proof fn lemma_no_marker_annotation_locates_none(attrs: Seq<AttrView>)
    requires
        forall|i: int| 0 <= i < attrs.len() ==> (#[trigger] attrs[i]).0 != marker_name(),
    ensures
        locate_marker(attrs) is None,
{
    lemma_locate_none_iff_no_marker(attrs);
    assert forall|i: int| 0 <= i < attrs.len() implies !is_marker(attrs[i]) by {
        assert(attrs[i].0 != marker_name());
    }
}

/// Law: marker annotations whose argument is not a single bare identifier
/// are silently skipped: when every attribute's argument is malformed, the
/// locator reports absence, indistinguishable from the marker being missing
/// altogether.
pub proof fn lemma_malformed_markers_locate_none(attrs: Seq<AttrView>)
    requires
        forall|i: int| 0 <= i < attrs.len() ==> (#[trigger] attrs[i]).1 is None,
    ensures
        locate_marker(attrs) is None,
{
    lemma_locate_none_iff_no_marker(attrs);
    assert forall|i: int| 0 <= i < attrs.len() implies !is_marker(attrs[i]) by {
        assert(attrs[i].1 is None);
    }
}

} // verus!
