//! Capabilities of a resource type, read from a server's discovery document.
use crate::resource::ApiResource;
use crate::text::str_eq;
use vstd::prelude::*;

verus! {

/// One entry of a discovery document.
#[derive(Debug, Clone, PartialEq, Eq)]
pub struct APIResource {
    /// The plural name; a subresource is named `parent/local`.
    pub name: String,
    /// Whether objects of the type live in a namespace.
    pub namespaced: bool,
    /// The kind.
    pub kind: String,
    /// The verbs that the server supports.
    pub verbs: Vec<String>,
    /// The group, where it differs from the document's.
    pub group: Option<String>,
    /// The version, where it differs from the document's.
    pub version: Option<String>,
}

/// A discovery document: the resource types of one group version.
#[derive(Debug, Clone, PartialEq, Eq)]
pub struct APIResourceList {
    /// The group and version, as `group/version` or, for the core group, `version`.
    pub group_version: String,
    /// The entries, in the server's order.
    pub resources: Vec<APIResource>,
}

/// Where objects of a resource type live.
#[derive(Debug, Clone, Copy, Hash, PartialEq, Eq, Structural)]
pub enum Scope {
    /// Objects are global.
    Cluster,
    /// Each object lives in a namespace.
    Namespaced,
}

/// The scope of a type whose entry has the given namespaced flag.
pub open spec fn scope_of(namespaced: bool) -> Scope {
    if namespaced {
        Scope::Namespaced
    } else {
        Scope::Cluster
    }
}

/// One of the eight verbs that have a flag of their own.
pub open spec fn is_known_verb(v: Seq<char>) -> bool {
    v == "create"@ || v == "get"@ || v == "list"@ || v == "watch"@ || v == "delete"@ || v
        == "deletecollection"@ || v == "update"@ || v == "patch"@
}

/// `v` occurs in `vs`.
pub open spec fn has_verb(vs: Seq<Seq<char>>, v: Seq<char>) -> bool
    decreases vs.len(),
{
    vs.len() > 0 && (vs.last() == v || has_verb(vs.drop_last(), v))
}

/// The verbs of `vs` that have no flag of their own, in their order.
pub open spec fn other_verbs(vs: Seq<Seq<char>>) -> Seq<Seq<char>>
    decreases vs.len(),
{
    if vs.len() == 0 {
        Seq::empty()
    } else if is_known_verb(vs.last()) {
        other_verbs(vs.drop_last())
    } else {
        other_verbs(vs.drop_last()).push(vs.last())
    }
}

/// The characters of each string.
pub open spec fn string_views(vs: Seq<String>) -> Seq<Seq<char>> {
    vs.map_values(|v: String| v@)
}

/// The operations that a resource type supports.
#[derive(Debug, Clone, Hash, PartialEq, Eq)]
pub struct Operations {
    /// An object can be created.
    pub create: bool,
    /// A single object can be read.
    pub get: bool,
    /// Several objects can be read.
    pub list: bool,
    /// A watch can be started.
    pub watch: bool,
    /// A single object can be deleted.
    pub delete: bool,
    /// Several objects can be deleted at once.
    pub delete_collection: bool,
    /// An object can be replaced.
    pub update: bool,
    /// An object can be patched.
    pub patch: bool,
    /// Every other verb, in the order listed.
    pub other: Vec<String>,
}

impl Operations {
    /// These are the operations of the verb list `vs`.
    pub open spec fn describes(&self, vs: Seq<Seq<char>>) -> bool {
        &&& self.create == has_verb(vs, "create"@)
        &&& self.get == has_verb(vs, "get"@)
        &&& self.list == has_verb(vs, "list"@)
        &&& self.watch == has_verb(vs, "watch"@)
        &&& self.delete == has_verb(vs, "delete"@)
        &&& self.delete_collection == has_verb(vs, "deletecollection"@)
        &&& self.update == has_verb(vs, "update"@)
        &&& self.patch == has_verb(vs, "patch"@)
        &&& string_views(self.other@) == other_verbs(vs)
    }

    /// No operation at all.
    pub fn empty() -> (r: Self)
        ensures
            r.describes(Seq::empty()),
    {
        let r = Operations {
            create: false,
            get: false,
            list: false,
            watch: false,
            delete: false,
            delete_collection: false,
            update: false,
            patch: false,
            other: Vec::new(),
        };
        assert(string_views(r.other@) =~= Seq::empty());
        r
    }

    /// Sorts each verb into its flag, or into `other`.
    pub fn from_verbs(verbs: &Vec<String>) -> (r: Self)
        ensures
            r.describes(string_views(verbs@)),
    {
        let mut ops = Operations::empty();
        let n = verbs.len();
        let mut i: usize = 0;
        proof {
            assert(string_views(verbs@).take(0) =~= Seq::empty());
        }
        while i < n
            invariant
                n == verbs@.len(),
                0 <= i <= n,
                ops.describes(string_views(verbs@).take(i as int)),
            decreases n - i,
        {
            proof {
                reveal_strlit("create");
                reveal_strlit("get");
                reveal_strlit("list");
                reveal_strlit("watch");
                reveal_strlit("delete");
                reveal_strlit("deletecollection");
                reveal_strlit("update");
                reveal_strlit("patch");
                assert("create"@.len() == 6 && "create"@[0] == 'c');
                assert("get"@.len() == 3);
                assert("list"@.len() == 4);
                assert("watch"@.len() == 5 && "watch"@[0] == 'w');
                assert("delete"@.len() == 6 && "delete"@[0] == 'd');
                assert("deletecollection"@.len() == 16);
                assert("update"@.len() == 6 && "update"@[0] == 'u');
                assert("patch"@.len() == 5 && "patch"@[0] == 'p');
            }
            let ghost before = string_views(verbs@).take(i as int);
            let ghost after = string_views(verbs@).take(i + 1);
            assert(after.drop_last() =~= before);
            assert(after.last() == verbs@[i as int]@);
            assert(forall|w: Seq<char>| #[trigger]
                has_verb(after, w) == (after.last() == w || has_verb(before, w)));
            assert(other_verbs(after) == if is_known_verb(after.last()) {
                other_verbs(before)
            } else {
                other_verbs(before).push(after.last())
            });
            let v = verbs[i].as_str();
            if str_eq(v, "create") {
                ops.create = true;
            } else if str_eq(v, "get") {
                ops.get = true;
            } else if str_eq(v, "list") {
                ops.list = true;
            } else if str_eq(v, "watch") {
                ops.watch = true;
            } else if str_eq(v, "delete") {
                ops.delete = true;
            } else if str_eq(v, "deletecollection") {
                ops.delete_collection = true;
            } else if str_eq(v, "update") {
                ops.update = true;
            } else if str_eq(v, "patch") {
                ops.patch = true;
            } else {
                let ghost old_other = ops.other@;
                ops.other.push(verbs[i].clone());
                assert(string_views(ops.other@) =~= string_views(old_other).push(v@));
            }
            i = i + 1;
        }
        assert(string_views(verbs@).take(n as int) =~= string_views(verbs@));
        ops
    }
}

/// `i` is the first entry of `rs` named `name`.
pub open spec fn is_first_named(rs: Seq<APIResource>, name: Seq<char>, i: int) -> bool {
    0 <= i < rs.len() && rs[i].name@ == name && forall|j: int| 0 <= j < i ==> rs[j].name@ != name
}

/// Some entry of `rs` is named `name`.
pub open spec fn has_named(rs: Seq<APIResource>, name: Seq<char>) -> bool {
    exists|i: int| 0 <= i < rs.len() && rs[i].name@ == name
}

/// The first entry of `rs` named `name`.
pub open spec fn first_named(rs: Seq<APIResource>, name: Seq<char>) -> APIResource {
    rs[choose|i: int| is_first_named(rs, name, i)]
}

/// `s` holds no slash (it may be empty).
pub open spec fn is_local_name(s: Seq<char>) -> bool {
    forall|i: int| 0 <= i < s.len() ==> s[i] != '/'
}

/// `child` is `parent`, one slash, and a local name without a slash.
pub open spec fn is_child_name(parent: Seq<char>, child: Seq<char>) -> bool {
    &&& child.len() > parent.len()
    &&& child.take(parent.len() + 1int) == parent + seq!['/']
    &&& is_local_name(child.skip(parent.len() + 1int))
}

/// The entries of `rs` whose names lie under `name`, in their order.
pub open spec fn child_entries(rs: Seq<APIResource>, name: Seq<char>) -> Seq<APIResource>
    decreases rs.len(),
{
    if rs.len() == 0 {
        Seq::empty()
    } else if is_child_name(name, rs.last().name@) {
        child_entries(rs.drop_last(), name).push(rs.last())
    } else {
        child_entries(rs.drop_last(), name)
    }
}

/// The length of the longest name in `rs`.
pub open spec fn longest_name(rs: Seq<APIResource>) -> nat
    decreases rs.len(),
{
    if rs.len() == 0 {
        0
    } else if rs.last().name@.len() > longest_name(rs.drop_last()) {
        rs.last().name@.len()
    } else {
        longest_name(rs.drop_last())
    }
}

proof fn lemma_longest_name(rs: Seq<APIResource>, i: int)
    requires
        0 <= i < rs.len(),
    ensures
        rs[i].name@.len() <= longest_name(rs),
    decreases rs.len(),
{
    if i < rs.len() - 1 {
        lemma_longest_name(rs.drop_last(), i);
    }
}

/// More of what the server says of a resource type.
pub struct ApiResourceExtras {
    /// Where its objects live.
    pub scope: Scope,
    /// Its subresources, each with an identity whose plural is the local
    /// name (`status`, not `pods/status`).
    pub subresources: Vec<(ApiResource, ApiResourceExtras)>,
    /// The operations it supports.
    pub operations: Operations,
}

impl ApiResourceExtras {
    /// This is what `list` says of the type named `name`: the scope and
    /// operations of its first entry, and one subresource for each entry
    /// named `name/local`, where `local` holds no slash (it may be empty), in
    /// order, described the same way.
    pub open spec fn describes(&self, list: APIResourceList, name: Seq<char>) -> bool
        decreases self,
    {
        let rs = list.resources@;
        let entry = first_named(rs, name);
        let kids = child_entries(rs, name);
        &&& has_named(rs, name)
        &&& self.scope == scope_of(entry.namespaced)
        &&& self.operations.describes(string_views(entry.verbs@))
        &&& self.subresources@.len() == kids.len()
        &&& forall|k: int|
            0 <= k < kids.len() ==> {
                &&& (#[trigger] self.subresources[k]).0.identifies_entry(
                    kids[k],
                    list.group_version@,
                )
                &&& self.subresources[k].0.plural@ == kids[k].name@.skip(name.len() + 1int)
                &&& self.subresources[k].1.describes(list, kids[k].name@)
            }
    }

    /// Reads the scope, operations and subresources of the type named `name`
    /// from a discovery document; `None` when no entry has that name.
    pub fn from_apiresourcelist(list: &APIResourceList, name: &str) -> (r: Option<Self>)
        ensures
            r is None <==> !has_named(list.resources@, name@),
            r matches Some(e) ==> e.describes(*list, name@),
    {
        match find_named(&list.resources, name) {
            Some(i) => Some(Self::build(list, name, i)),
            None => None,
        }
    }

    fn build(list: &APIResourceList, name: &str, at: usize) -> (r: Self)
        requires
            is_first_named(list.resources@, name@, at as int),
        ensures
            r.describes(*list, name@),
        decreases longest_name(list.resources@) - name@.len(),
    {
        let rs = &list.resources;
        let n = rs.len();
        let ar = &rs[at];
        proof {
            lemma_longest_name(rs@, at as int);
            assert(forall|k: int| is_first_named(rs@, name@, k) ==> k == at);
        }
        let scope = if ar.namespaced {
            Scope::Namespaced
        } else {
            Scope::Cluster
        };
        let operations = Operations::from_verbs(&ar.verbs);
        let mut prefix = String::from_str(name);
        prefix.append("/");
        proof {
            reveal_strlit("/");
            assert(prefix@ =~= name@ + seq!['/']);
        }
        let mut subresources: Vec<(ApiResource, ApiResourceExtras)> = Vec::new();
        let mut j: usize = 0;
        assert(rs@.take(0) =~= Seq::<APIResource>::empty());
        while j < n
            invariant
                n == rs@.len(),
                rs == &list.resources,
                0 <= j <= n,
                prefix@ == name@ + seq!['/'],
                subresources@.len() == child_entries(rs@.take(j as int), name@).len(),
                forall|k: int|
                    0 <= k < subresources@.len() ==> {
                        let kid = child_entries(rs@.take(j as int), name@)[k];
                        &&& (#[trigger] subresources@[k]).0.identifies_entry(
                            kid,
                            list.group_version@,
                        )
                        &&& subresources@[k].0.plural@ == kid.name@.skip(name@.len() + 1int)
                        &&& subresources@[k].1.describes(*list, kid.name@)
                    },
            decreases n - j,
        {
            let ghost kids = child_entries(rs@.take(j as int), name@);
            assert(rs@.take(j + 1).drop_last() =~= rs@.take(j as int));
            assert(rs@.take(j + 1).last() == rs@[j as int]);
            let res = &rs[j];
            let local = strip_prefix(res.name.as_str(), prefix.as_str());
            if local.is_some() && is_local(local.unwrap()) {
                let local = local.unwrap();
                if let Some(at_child) = find_named(rs, res.name.as_str()) {
                    let mut api_resource = ApiResource::from_apiresource(
                        res,
                        list.group_version.as_str(),
                    );
                    api_resource.plural = String::from_str(local);
                    proof {
                        lemma_longest_name(rs@, j as int);
                    }
                    let extra = Self::build(list, res.name.as_str(), at_child);
                    subresources.push((api_resource, extra));
                    assert(child_entries(rs@.take(j + 1), name@) == kids.push(rs@[j as int]));
                } else {
                    assert(false);
                }
            }
            j = j + 1;
        }
        assert(rs@.take(n as int) =~= rs@);
        ApiResourceExtras { scope, subresources, operations }
    }
}

/// The first entry of `rs` named `name`, if any.
fn find_named(rs: &Vec<APIResource>, name: &str) -> (r: Option<usize>)
    ensures
        r matches Some(i) ==> is_first_named(rs@, name@, i as int),
        r is None <==> !has_named(rs@, name@),
{
    let n = rs.len();
    let mut i: usize = 0;
    while i < n
        invariant
            n == rs@.len(),
            0 <= i <= n,
            forall|j: int| 0 <= j < i ==> rs@[j].name@ != name@,
        decreases n - i,
    {
        if str_eq(rs[i].name.as_str(), name) {
            return Some(i);
        }
        i = i + 1;
    }
    None
}

/// Whether `s` is a local name: without a slash, possibly empty.
fn is_local(s: &str) -> (r: bool)
    ensures
        r == is_local_name(s@),
{
    let n = s.unicode_len();
    let mut i: usize = 0;
    while i < n
        invariant
            n == s@.len(),
            0 <= i <= n,
            forall|j: int| 0 <= j < i ==> s@[j] != '/',
        decreases n - i,
    {
        if s.get_char(i) == '/' {
            return false;
        }
        i = i + 1;
    }
    true
}

/// `s` without `prefix`, when `s` starts with it.
fn strip_prefix<'a>(s: &'a str, prefix: &str) -> (r: Option<&'a str>)
    ensures
        r is Some <==> (prefix@.len() <= s@.len() && s@.take(prefix@.len() as int) == prefix@),
        r matches Some(rest) ==> rest@ == s@.skip(prefix@.len() as int),
{
    let n = s.unicode_len();
    let m = prefix.unicode_len();
    if m > n {
        return None;
    }
    let head = s.substring_char(0, m);
    if str_eq(head, prefix) {
        Some(s.substring_char(m, n))
    } else {
        None
    }
}

} // verus!
