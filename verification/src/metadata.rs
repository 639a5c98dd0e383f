//! Track metadata for one media-player endpoint.
//!
//! Metadata is derived from a raw property mapping read off the bus: the
//! artist list under the `xesam:artist` key, the title under `xesam:title`.
//! An absent key, or a value of the wrong shape, leaves the field unknown —
//! never an empty-string stand-in. The canonical display rendering joins the
//! artists with `", "` and separates artists from title with `" - "`.

use vstd::prelude::*;
use vstd::string::StringExecFns;

use crate::text::{join_spec, join_strings};

verus! {

/// One value of the raw property mapping: a single string, a list of
/// strings, or something of any other shape (kept only to be rejected).
#[derive(Debug, Clone, PartialEq)]
pub enum PropValue {
    Text(String),
    TextList(Vec<String>),
    Other,
}

/// The mathematical shape of a `PropValue`.
pub enum PropValueV {
    Text(Seq<char>),
    TextList(Seq<Seq<char>>),
    Other,
}

impl View for PropValue {
    type V = PropValueV;

    open spec fn view(&self) -> PropValueV {
        match self {
            PropValue::Text(s) => PropValueV::Text(s@),
            PropValue::TextList(v) => PropValueV::TextList(v.deep_view()),
            PropValue::Other => PropValueV::Other,
        }
    }
}

/// One entry of the raw property mapping.
#[derive(Debug, Clone, PartialEq)]
pub struct Property {
    pub key: String,
    pub value: PropValue,
}

/// The mathematical shape of a `Property`.
pub struct PropertyV {
    pub key: Seq<char>,
    pub value: PropValueV,
}

impl View for Property {
    type V = PropertyV;

    open spec fn view(&self) -> PropertyV {
        PropertyV { key: self.key@, value: self.value@ }
    }
}

impl DeepView for Property {
    type V = PropertyV;

    open spec fn deep_view(&self) -> PropertyV {
        self@
    }
}

/// The value under the first entry of `props` whose key is `key`, if any.
pub open spec fn lookup_spec(props: Seq<PropertyV>, key: Seq<char>) -> Option<PropValueV>
    decreases props.len(),
{
    if props.len() == 0 {
        None
    } else if props[0].key == key {
        Some(props[0].value)
    } else {
        lookup_spec(props.drop_first(), key)
    }
}

/// The artist list of a raw property mapping: the string list under
/// `xesam:artist`, unknown when the key is absent or of another shape.
pub open spec fn artists_of(props: Seq<PropertyV>) -> Option<Seq<Seq<char>>> {
    match lookup_spec(props, "xesam:artist"@) {
        Some(PropValueV::TextList(v)) => Some(v),
        _ => None,
    }
}

/// The title of a raw property mapping: the string under `xesam:title`,
/// unknown when the key is absent or of another shape.
pub open spec fn title_of(props: Seq<PropertyV>) -> Option<Seq<char>> {
    match lookup_spec(props, "xesam:title"@) {
        Some(PropValueV::Text(t)) => Some(t),
        _ => None,
    }
}

proof fn lemma_lookup_found(props: Seq<PropertyV>, key: Seq<char>, i: int)
    requires
        0 <= i < props.len(),
        props[i].key == key,
        forall|j: int| 0 <= j < i ==> props[j].key != key,
    ensures
        lookup_spec(props, key) == Some(props[i].value),
    decreases i,
{
    if i == 0 {
    } else {
        assert(props[0].key != key);
        let rest = props.drop_first();
        assert(rest[i - 1] == props[i]);
        assert(forall|j: int| 0 <= j < i - 1 ==> rest[j] == props[j + 1]);
        lemma_lookup_found(rest, key, i - 1);
    }
}

proof fn lemma_lookup_none(props: Seq<PropertyV>, key: Seq<char>)
    requires
        forall|j: int| 0 <= j < props.len() ==> props[j].key != key,
    ensures
        lookup_spec(props, key) is None,
    decreases props.len(),
{
    if props.len() == 0 {
    } else {
        let rest = props.drop_first();
        assert(forall|j: int| 0 <= j < rest.len() ==> rest[j] == props[j + 1]);
        lemma_lookup_none(rest, key);
    }
}

/// A reference to the value under the first entry of `props` matching `key`,
/// or nothing when no entry matches.
fn lookup_value<'a>(props: &'a Vec<Property>, key: &str) -> (r: Option<&'a PropValue>)
    ensures
        match r {
            Some(v) => lookup_spec(props.deep_view(), key@) == Some(v@),
            None => lookup_spec(props.deep_view(), key@) is None,
        },
{
    let k: String = key.to_owned();
    let n = props.len();
    let mut i: usize = 0;
    while i < n
        invariant
            k@ == key@,
            n == props@.len(),
            i <= n,
            forall|j: int| 0 <= j < i ==> props.deep_view()[j].key != key@,
        decreases n - i,
    {
        if props[i].key == k {
            proof {
                lemma_lookup_found(props.deep_view(), key@, i as int);
            }
            return Some(&props[i].value);
        }
        i += 1;
    }
    proof {
        lemma_lookup_none(props.deep_view(), key@);
    }
    None
}

/// Track metadata: an optional ordered artist list and an optional title.
/// Absent fields mean "unknown", not "empty".
#[derive(Debug, Clone, PartialEq)]
pub struct MprisPlayerMetadata {
    pub artists: Option<Vec<String>>,
    pub title: Option<String>,
}

/// The mathematical shape of `MprisPlayerMetadata`.
pub struct MetadataV {
    pub artists: Option<Seq<Seq<char>>>,
    pub title: Option<Seq<char>>,
}

impl View for MprisPlayerMetadata {
    type V = MetadataV;

    open spec fn view(&self) -> MetadataV {
        MetadataV {
            artists: match self.artists {
                Some(v) => Some(v.deep_view()),
                None => None,
            },
            title: match self.title {
                Some(t) => Some(t@),
                None => None,
            },
        }
    }
}

/// The metadata a raw property mapping denotes.
pub open spec fn metadata_of(props: Seq<PropertyV>) -> MetadataV {
    MetadataV { artists: artists_of(props), title: title_of(props) }
}

/// The canonical display rendering: empty when nothing is known, the joined
/// artists or the title alone when only one is known, and
/// `"<artists> - <title>"` when both are.
pub open spec fn display_spec(m: MetadataV) -> Seq<char> {
    match (m.artists, m.title) {
        (None, None) => Seq::empty(),
        (None, Some(t)) => t,
        (Some(a), None) => join_spec(a, ", "@),
        (Some(a), Some(t)) => join_spec(a, ", "@) + " - "@ + t,
    }
}

impl MprisPlayerMetadata {
    /// Derive metadata from a raw property mapping, as read off the bus.
    pub fn from_properties(props: &Vec<Property>) -> (r: MprisPlayerMetadata)
        ensures
            r@ == metadata_of(props.deep_view()),
    {
        let artists: Option<Vec<String>> = match lookup_value(props, "xesam:artist") {
            Some(v) => match v {
                PropValue::TextList(list) => {
                    let copy = list.clone();
                    proof {
                        assert(copy.deep_view() =~= list.deep_view());
                    }
                    Some(copy)
                },
                _ => None,
            },
            None => None,
        };
        let title: Option<String> = match lookup_value(props, "xesam:title") {
            Some(v) => match v {
                PropValue::Text(t) => Some(t.clone()),
                _ => None,
            },
            None => None,
        };
        let r = MprisPlayerMetadata { artists, title };
        proof {
            let mv = metadata_of(props.deep_view());
            assert(r@.artists == mv.artists);
            assert(r@.title == mv.title);
        }
        r
    }

    /// The canonical display rendering of this metadata.
    pub fn display(&self) -> (r: String)
        ensures
            r@ == display_spec(self@),
    {
        match (&self.artists, &self.title) {
            (None, None) => String::new(),
            (None, Some(t)) => t.clone(),
            (Some(a), None) => join_strings(a, ", "),
            (Some(a), Some(t)) => {
                let mut s = join_strings(a, ", ");
                s.append(" - ");
                s.append(t.as_str());
                s
            },
        }
    }
}

/// The display rendering law: nothing known renders empty; only artists
/// render as the joined list; only a title renders as the title; both render
/// as the joined artists, a `" - "` separator, and the title.
pub proof fn lemma_display_rendering(m: MetadataV)
    ensures
        m.artists is None && m.title is None ==> display_spec(m) == Seq::<char>::empty(),
        m.artists is None ==> (m.title matches Some(t) ==> display_spec(m) == t),
        m.title is None ==> (m.artists matches Some(a) ==> display_spec(m) == join_spec(
            a,
            ", "@,
        )),
        m.artists matches Some(a) ==> (m.title matches Some(t) ==> display_spec(m) == join_spec(
            a,
            ", "@,
        ) + " - "@ + t),
{
}

} // verus!
