//! The identity of a resource type: group, version, apiVersion, kind and plural.
use crate::discovery::APIResource;
use crate::object::ObjectMeta;
use crate::text::{ascii_lower, to_ascii_lowercase};
use vstd::prelude::*;

verus! {

/// The apiVersion of a group and version: the version alone for the core
/// group (the empty one), else group, a slash and version.
pub open spec fn api_version_of(group: Seq<char>, version: Seq<char>) -> Seq<char> {
    if group.len() == 0 {
        version
    } else {
        group + seq!['/'] + version
    }
}

/// `i` is the position of the first slash in `s`.
pub open spec fn is_first_slash(s: Seq<char>, i: int) -> bool {
    0 <= i < s.len() && s[i] == '/' && forall|j: int| 0 <= j < i ==> s[j] != '/'
}

/// A group-version string split at its first slash into group and version;
/// without a slash it is the version of the core group.
pub open spec fn split_group_version(gv: Seq<char>) -> (Seq<char>, Seq<char>) {
    if exists|i: int| is_first_slash(gv, i) {
        let i = choose|i: int| is_first_slash(gv, i);
        (gv.take(i), gv.skip(i + 1))
    } else {
        (Seq::empty(), gv)
    }
}

/// The value of an optional string, or `default` when it is absent.
pub open spec fn value_or(o: Option<String>, default: Seq<char>) -> Seq<char> {
    match o {
        Some(s) => s@,
        None => default,
    }
}

pub open spec fn is_vowel(c: char) -> bool {
    c == 'a' || c == 'e' || c == 'i' || c == 'o' || c == 'u'
}

/// The English plural that the heuristic guesses for a lower-case noun: "es"
/// after s, x, z, ch or sh; "ies" in place of a y that follows a consonant;
/// else "s".
pub open spec fn plural_of(w: Seq<char>) -> Seq<char> {
    let n = w.len();
    if n >= 1 && (w[n - 1] == 's' || w[n - 1] == 'x' || w[n - 1] == 'z' || (n >= 2 && (w[n
        - 2] == 'c' || w[n - 2] == 's') && w[n - 1] == 'h')) {
        w + "es"@
    } else if n >= 2 && w[n - 1] == 'y' && !is_vowel(w[n - 2]) {
        w.take(n - 1) + "ies"@
    } else {
        w + "s"@
    }
}

/// Guesses the plural of a lower-case noun. This is a heuristic: irregular
/// nouns get a wrong plural.
pub fn to_plural(word: &str) -> (r: String)
    ensures
        r@ == plural_of(word@),
{
    let n = word.unicode_len();
    if n >= 1 {
        let last = word.get_char(n - 1);
        let before = if n >= 2 {
            word.get_char(n - 2)
        } else {
            ' '
        };
        if last == 's' || last == 'x' || last == 'z' || (n >= 2 && (before == 'c' || before
            == 's') && last == 'h') {
            return String::from_str(word).concat("es");
        }
        if n >= 2 && last == 'y' && !(before == 'a' || before == 'e' || before == 'i' || before
            == 'o' || before == 'u') {
            return String::from_str(word.substring_char(0, n - 1)).concat("ies");
        }
    }
    String::from_str(word).concat("s")
}

/// A group, version and kind, without the plural.
#[derive(Debug, Clone, Hash, PartialEq, Eq)]
pub struct GroupVersionKind {
    pub group: String,
    pub version: String,
    pub kind: String,
}

impl GroupVersionKind {
    /// Builds a group, version and kind from its parts.
    pub fn gvk(group: &str, version: &str, kind: &str) -> (r: Self)
        ensures
            r.group@ == group@,
            r.version@ == version@,
            r.kind@ == kind@,
    {
        GroupVersionKind {
            group: String::from_str(group),
            version: String::from_str(version),
            kind: String::from_str(kind),
        }
    }
}

/// What a client needs to address a resource type.
#[derive(Debug, Clone, Hash, PartialEq, Eq)]
pub struct ApiResource {
    /// The group, empty for the core group.
    pub group: String,
    /// The version within the group.
    pub version: String,
    /// The version for the core group, else group and version joined by a slash.
    pub api_version: String,
    /// The singular PascalCase name.
    pub kind: String,
    /// The plural name.
    pub plural: String,
}

impl ApiResource {
    /// The apiVersion agrees with the group and version.
    pub open spec fn has_consistent_api_version(&self) -> bool {
        self.api_version@ == api_version_of(self.group@, self.version@)
    }

    /// Group, version, apiVersion and kind are those of the discovery entry
    /// `ar` listed under the group-version string `gv`.
    pub open spec fn identifies_entry(&self, ar: APIResource, gv: Seq<char>) -> bool {
        &&& self.group@ == value_or(ar.group, split_group_version(gv).0)
        &&& self.version@ == value_or(ar.version, split_group_version(gv).1)
        &&& self.kind@ == ar.kind@
        &&& self.has_consistent_api_version()
    }

    /// Builds the identity of a discovery entry listed under `group_version`.
    /// The entry's own group and version, where present, win over those of
    /// `group_version`; the plural is the entry's name.
    pub fn from_apiresource(ar: &APIResource, group_version: &str) -> (r: Self)
        ensures
            r.identifies_entry(*ar, group_version@),
            r.plural@ == ar.name@,
    {
        let (default_group, default_version) = split_gv(group_version);
        let group = match &ar.group {
            Some(g) => g.clone(),
            None => default_group,
        };
        let version = match &ar.version {
            Some(v) => v.clone(),
            None => default_version,
        };
        let api_version = join_api_version(&group, &version);
        ApiResource { group, version, api_version, kind: ar.kind.clone(), plural: ar.name.clone() }
    }

    /// Copies the identity that a resource type `K` gives for `dt`.
    pub fn erase<K: Resource>(dt: &K::DynamicType) -> (r: Self)
        ensures
            r.group@ == K::group_of(dt),
            r.version@ == K::version_of(dt),
            r.api_version@ == K::api_version_of(dt),
            r.kind@ == K::kind_of(dt),
            r.plural@ == K::plural_of(dt),
    {
        ApiResource {
            group: String::from_str(K::group(dt)),
            version: String::from_str(K::version(dt)),
            api_version: String::from_str(K::api_version(dt)),
            kind: String::from_str(K::kind(dt)),
            plural: String::from_str(K::plural(dt)),
        }
    }

    /// Builds an identity from group, version and kind alone.
    ///
    /// The plural is guessed from the lower-cased kind and may be wrong for an
    /// irregular noun; where it matters, take the identity from a discovery
    /// document instead.
    pub fn from_gvk(gvk: &GroupVersionKind) -> (r: Self)
        ensures
            r.group@ == gvk.group@,
            r.version@ == gvk.version@,
            r.kind@ == gvk.kind@,
            r.has_consistent_api_version(),
            r.plural@ == plural_of(ascii_lower(gvk.kind@)),
    {
        let api_version = join_api_version(&gvk.group, &gvk.version);
        let lower = to_ascii_lowercase(gvk.kind.as_str());
        ApiResource {
            group: gvk.group.clone(),
            version: gvk.version.clone(),
            api_version,
            kind: gvk.kind.clone(),
            plural: to_plural(lower.as_str()),
        }
    }
}

/// For a group-version string with exactly one slash, the identity of a
/// discovery entry listed under it has the part before the slash as its group
/// and the part after as its version, except where the entry gives its own.
pub proof fn lemma_single_slash_split(id: ApiResource, ar: APIResource, gv: Seq<char>, i: int)
    requires
        0 <= i < gv.len(),
        gv[i] == '/',
        forall|j: int| 0 <= j < gv.len() && j != i ==> gv[j] != '/',
        id.identifies_entry(ar, gv),
    ensures
        id.group@ == value_or(ar.group, gv.take(i)),
        id.version@ == value_or(ar.version, gv.skip(i + 1)),
        id.api_version@ == api_version_of(id.group@, id.version@),
{
    assert(is_first_slash(gv, i));
    assert(forall|k: int| is_first_slash(gv, k) ==> k == i);
}

/// Splits a group-version string at its first slash.
fn split_gv(gv: &str) -> (r: (String, String))
    ensures
        (r.0@, r.1@) == split_group_version(gv@),
{
    let n = gv.unicode_len();
    let mut i: usize = 0;
    while i < n
        invariant
            n == gv@.len(),
            0 <= i <= n,
            forall|j: int| 0 <= j < i ==> gv@[j] != '/',
        decreases n - i,
    {
        if gv.get_char(i) == '/' {
            assert(is_first_slash(gv@, i as int));
            assert(forall|k: int| is_first_slash(gv@, k) ==> k == i);
            let group = String::from_str(gv.substring_char(0, i));
            let version = String::from_str(gv.substring_char(i + 1, n));
            return (group, version);
        }
        i = i + 1;
    }
    assert(!exists|k: int| is_first_slash(gv@, k));
    (String::new(), String::from_str(gv))
}

/// The apiVersion for `group` and `version`.
fn join_api_version(group: &String, version: &String) -> (r: String)
    ensures
        r@ == api_version_of(group@, version@),
{
    if group.as_str().unicode_len() == 0 {
        version.clone()
    } else {
        let mut s = group.clone();
        s.append("/");
        s.append(version.as_str());
        proof {
            reveal_strlit("/");
        }
        assert(s@ =~= group@ + seq!['/'] + version@);
        s
    }
}

/// A resource type that can be addressed on the server. Its identity is given
/// by a value of `DynamicType`, passed to every accessor, so that one type can
/// stand for many resource kinds.
pub trait Resource {
    /// What the identity is read from.
    type DynamicType;

    spec fn group_of(dt: &Self::DynamicType) -> Seq<char>;

    spec fn version_of(dt: &Self::DynamicType) -> Seq<char>;

    spec fn kind_of(dt: &Self::DynamicType) -> Seq<char>;

    spec fn api_version_of(dt: &Self::DynamicType) -> Seq<char>;

    spec fn plural_of(dt: &Self::DynamicType) -> Seq<char>;

    spec fn meta_of(&self) -> ObjectMeta;

    /// The group.
    fn group(dt: &Self::DynamicType) -> (r: &str)
        ensures
            r@ == Self::group_of(dt),
    ;

    /// The version.
    fn version(dt: &Self::DynamicType) -> (r: &str)
        ensures
            r@ == Self::version_of(dt),
    ;

    /// The kind.
    fn kind(dt: &Self::DynamicType) -> (r: &str)
        ensures
            r@ == Self::kind_of(dt),
    ;

    /// The apiVersion.
    fn api_version(dt: &Self::DynamicType) -> (r: &str)
        ensures
            r@ == Self::api_version_of(dt),
    ;

    /// The plural name.
    fn plural(dt: &Self::DynamicType) -> (r: &str)
        ensures
            r@ == Self::plural_of(dt),
    ;

    /// The object's metadata.
    fn meta(&self) -> (r: &ObjectMeta)
        ensures
            *r == self.meta_of(),
    ;

    /// The object's metadata, to change it in place.
    fn meta_mut(&mut self) -> (r: &mut ObjectMeta)
        ensures
            *r == old(self).meta_of(),
            final(self).meta_of() == *final(r),
    ;
}

} // verus!
